use hecras_bridge::command::Invocation;
use hecras_bridge::export::{
    export_hdf_to_csv, export_hdf_to_json, export_to_vtk_py_hmt2_d, Prompt, Resolution,
    CANCELLED_MESSAGE, DEFAULT_EXPORT_TYPE,
};

fn s(text: &str) -> String {
    text.to_string()
}

fn resolved(resolution: Resolution) -> Invocation {
    match resolution {
        Resolution::Resolved(invocation) => invocation,
        Resolution::Cancelled(_) => panic!("a chosen destination resolves the export"),
    }
}

#[test]
fn the_cancellation_message_is_fixed() {
    assert_eq!(CANCELLED_MESSAGE, "Exportación cancelada por el usuario");
    assert_eq!(DEFAULT_EXPORT_TYPE, "all_timesteps");
}

#[test]
fn csv_export_prompts_for_a_file() {
    let flow = export_hdf_to_csv(s("/m.hdf"), s("Results/Unsteady/Depth Map"));
    assert_eq!(
        flow.prompt,
        Prompt::SaveFile {
            title: s("Guardar archivo CSV"),
            file_name: s("hdf_export_Results_Unsteady_Depth_Map.csv"),
            filter_name: s("Archivos CSV"),
            extension: s("csv"),
        }
    );
}

#[test]
fn json_export_prompts_for_a_file() {
    let flow = export_hdf_to_json(s("/m.hdf"), s("Geometry/Cell Info"));
    assert_eq!(
        flow.prompt,
        Prompt::SaveFile {
            title: s("Guardar archivo JSON"),
            file_name: s("hdf_export_Geometry_Cell_Info.json"),
            filter_name: s("Archivos JSON"),
            extension: s("json"),
        }
    );
}

#[test]
fn vtk_export_prompts_for_a_folder() {
    let flow = export_to_vtk_py_hmt2_d(s("/m.hdf"), None, None);
    assert_eq!(
        flow.prompt,
        Prompt::PickFolder {
            title: s("Seleccionar carpeta para exportar archivos VTK"),
            directory: s("/"),
        }
    );
}

#[test]
fn csv_export_appends_the_destination_last() {
    let flow = export_hdf_to_csv(s("/m.hdf"), s("Results/Depth"));
    let inv = resolved(flow.pending.resolve(Some(s("/home/u/depth.csv"))));
    assert_eq!(inv.script, "hdf_data_extractor.py");
    assert_eq!(inv.args, vec!["/m.hdf", "export_csv", "Results/Depth", "/home/u/depth.csv"]);
}

#[test]
fn json_export_appends_the_destination_last() {
    let flow = export_hdf_to_json(s("/m.hdf"), s("Results/Depth"));
    let inv = resolved(flow.pending.resolve(Some(s("/home/u/depth.json"))));
    assert_eq!(inv.script, "hdf_data_extractor.py");
    assert_eq!(inv.args, vec!["/m.hdf", "export_json", "Results/Depth", "/home/u/depth.json"]);
}

#[test]
fn the_dataset_path_is_sent_as_it_came() {
    let flow = export_hdf_to_csv(s("/m.hdf"), s("Results/Depth Map"));
    let inv = resolved(flow.pending.resolve(Some(s("/o.csv"))));
    assert_eq!(inv.args[2], "Results/Depth Map");
}

#[test]
fn vtk_export_puts_the_folder_before_terrain_and_type() {
    let flow = export_to_vtk_py_hmt2_d(s("/m.hdf"), None, None);
    let inv = resolved(flow.pending.resolve(Some(s("/home/u/vtk"))));
    assert_eq!(inv.script, "HECRAS-HDF/hecras_processor.py");
    assert_eq!(inv.args, vec!["export_vtk", "/m.hdf", "/home/u/vtk", "null", "all_timesteps"]);
}

#[test]
fn vtk_export_with_terrain_and_type() {
    let flow = export_to_vtk_py_hmt2_d(s("/m.hdf"), Some(s("/t.tif")), Some(s("last_timestep")));
    let inv = resolved(flow.pending.resolve(Some(s("/vtk"))));
    assert_eq!(inv.args, vec!["export_vtk", "/m.hdf", "/vtk", "/t.tif", "last_timestep"]);
}

#[test]
fn a_dismissed_prompt_cancels_without_a_request() {
    let flows = [
        export_hdf_to_csv(s("/m.hdf"), s("Results/Depth")),
        export_hdf_to_json(s("/m.hdf"), s("Results/Depth")),
        export_to_vtk_py_hmt2_d(s("/m.hdf"), Some(s("/t.tif")), None),
    ];
    let mut requests = 0;
    for flow in flows {
        match flow.pending.resolve(None) {
            Resolution::Resolved(_) => requests += 1,
            Resolution::Cancelled(result) => {
                assert!(!result.success);
                assert_eq!(result.data, None);
                assert_eq!(result.error, Some(s("Exportación cancelada por el usuario")));
            }
        }
    }
    assert_eq!(requests, 0);
}

#[test]
fn an_empty_destination_is_still_a_destination() {
    let flow = export_hdf_to_csv(s("/m.hdf"), s("d"));
    let inv = resolved(flow.pending.resolve(Some(String::new())));
    assert_eq!(inv.args, vec!["/m.hdf", "export_csv", "d", ""]);
}
