//! The argument encoder: for each operation of the bridge, the script that
//! serves it and the positional tokens the script is called with.
//!
//! Every token is text. A number arrives here already in its decimal text
//! form; an optional value that is absent is never left out of the list but
//! replaced by a sentinel or a default that the backend knows.

use vstd::prelude::*;
use crate::command::{call, Invocation, InvocationView};
use crate::text::{decimal_text, i32_to_decimal};

verus! {

/// Script that reads HDF files.
pub const HDF_READER_SCRIPT: &'static str = "hdf_reader.py";

/// Script that extracts Manning values.
pub const MANNING_EXTRACTOR_SCRIPT: &'static str = "manning_extractor.py";

/// Script that converts to rasters and describes them.
pub const RASTER_CONVERTER_SCRIPT: &'static str = "raster_converter.py";

/// Script that runs the hydraulic calculators.
pub const HYDRAULIC_CALC_SCRIPT: &'static str = "hydraulic_calc.py";

/// Script that extracts, plots and exports HDF datasets.
pub const HDF_DATA_EXTRACTOR_SCRIPT: &'static str = "hdf_data_extractor.py";

/// Script that serves the combined HEC-RAS processing family.
pub const HECRAS_PROCESSOR_SCRIPT: &'static str = "HECRAS-HDF/hecras_processor.py";

/// Script that reads boundary conditions.
pub const BOUNDARY_CONDITIONS_SCRIPT: &'static str = "enhanced_boundary_conditions_reader.py";

/// Script that exports hydrograph data.
pub const HYDROGRAPH_EXPORTER_SCRIPT: &'static str = "hydrograph_exporter.py";

/// Token that stands for an absent optional path.
pub const NULL_ARG: &'static str = "null";

/// Token that stands for an absent output directory.
pub const DEFAULT_OUTPUT_DIR: &'static str = "temp";

/// Cell that a hydrograph is drawn for when none is named.
pub const DEFAULT_CELL_ID: i32 = 0;

/// The token for an optional terrain path: the path, or the sentinel.
pub open spec fn terrain_or_null(terrain_file_path: Option<Seq<char>>) -> Seq<char> {
    match terrain_file_path {
        Some(path) => path,
        None => NULL_ARG@,
    }
}

/// The token for an optional cell id: its decimal text, or that of the
/// default cell.
pub open spec fn cell_token(cell_id: Option<i32>) -> Seq<char> {
    match cell_id {
        Some(cell) => decimal_text(cell as int),
        None => decimal_text(DEFAULT_CELL_ID as int),
    }
}

/// The token for an optional output directory: the directory, or the
/// default one.
pub open spec fn output_dir_or_temp(output_directory: Option<Seq<char>>) -> Seq<char> {
    match output_directory {
        Some(dir) => dir,
        None => DEFAULT_OUTPUT_DIR@,
    }
}

/// The tokens of the combined processing family. The operation name picks
/// the shape: `hydrograph` carries a cell, `export_vtk` an output
/// directory, and every other name, known or not, only the terrain.
pub open spec fn pyhmt2d_tokens(
    operation: Seq<char>,
    hdf_file: Seq<char>,
    cell_id: Option<i32>,
    output_directory: Option<Seq<char>>,
    terrain_file: Option<Seq<char>>,
) -> Seq<Seq<char>> {
    if operation == "hydrograph"@ {
        seq![operation, hdf_file, cell_token(cell_id), terrain_or_null(terrain_file)]
    } else if operation == "export_vtk"@ {
        seq![
            operation,
            hdf_file,
            output_dir_or_temp(output_directory),
            terrain_or_null(terrain_file),
        ]
    } else {
        seq![operation, hdf_file, terrain_or_null(terrain_file)]
    }
}

/// Turns an optional terrain path into its token: the path itself, or
/// `null` where there is none.
pub fn terrain_arg_or_null(terrain_file_path: Option<String>) -> (token: String)
    ensures
        token@ == terrain_or_null(terrain_file_path.deep_view()),
{
    match terrain_file_path {
        Some(path) => path,
        None => NULL_ARG.to_owned(),
    }
}

fn cell_arg_or_default(cell_id: Option<i32>) -> (token: String)
    ensures
        token@ == cell_token(cell_id),
{
    match cell_id {
        Some(cell) => i32_to_decimal(cell),
        None => i32_to_decimal(DEFAULT_CELL_ID),
    }
}

fn output_dir_arg_or_temp(output_directory: Option<String>) -> (token: String)
    ensures
        token@ == output_dir_or_temp(output_directory.deep_view()),
{
    match output_directory {
        Some(dir) => dir,
        None => DEFAULT_OUTPUT_DIR.to_owned(),
    }
}

fn reader_call(file_path: String, mode: &str) -> (inv: Invocation)
    ensures
        inv@ == call(HDF_READER_SCRIPT@, seq![file_path@, mode@]),
{
    let args = vec![file_path, mode.to_owned()];
    assert(args.deep_view() =~= seq![file_path@, mode@]);
    Invocation::new(HDF_READER_SCRIPT, args)
}

fn extractor_call(file_path: String, mode: &str, dataset_path: String) -> (inv: Invocation)
    ensures
        inv@ == call(HDF_DATA_EXTRACTOR_SCRIPT@, seq![file_path@, mode@, dataset_path@]),
{
    let args = vec![file_path, mode.to_owned(), dataset_path];
    assert(args.deep_view() =~= seq![file_path@, mode@, dataset_path@]);
    Invocation::new(HDF_DATA_EXTRACTOR_SCRIPT, args)
}

fn processor_call(operation: &str, hdf_file_path: String, terrain_file_path: Option<String>) -> (inv:
    Invocation)
    ensures
        inv@ == call(
            HECRAS_PROCESSOR_SCRIPT@,
            seq![operation@, hdf_file_path@, terrain_or_null(terrain_file_path.deep_view())],
        ),
{
    let terrain_arg = terrain_arg_or_null(terrain_file_path);
    let args = vec![operation.to_owned(), hdf_file_path, terrain_arg];
    assert(args.deep_view() =~= seq![operation@, hdf_file_path@, terrain_arg@]);
    Invocation::new(HECRAS_PROCESSOR_SCRIPT, args)
}

/// General information on an HDF file.
pub fn read_hdf_file_info(file_path: String) -> (inv: Invocation)
    ensures
        inv@ == call(HDF_READER_SCRIPT@, seq![file_path@, "info"@]),
{
    reader_call(file_path, "info")
}

/// The group and dataset structure of an HDF file.
pub fn read_hdf_file_structure(file_path: String) -> (inv: Invocation)
    ensures
        inv@ == call(HDF_READER_SCRIPT@, seq![file_path@, "structure"@]),
{
    reader_call(file_path, "structure")
}

/// The hydraulic datasets of an HDF file.
pub fn find_hydraulic_datasets(file_path: String) -> (inv: Invocation)
    ensures
        inv@ == call(HDF_READER_SCRIPT@, seq![file_path@, "hydraulic"@]),
{
    reader_call(file_path, "hydraulic")
}

/// The detailed metadata of an HDF file.
pub fn get_detailed_hdf_metadata(file_path: String) -> (inv: Invocation)
    ensures
        inv@ == call(HDF_READER_SCRIPT@, seq![file_path@, "metadata"@]),
{
    reader_call(file_path, "metadata")
}

/// The Manning values of an HDF file. A terrain path is accepted and never
/// forwarded: the extractor reads the HDF file alone.
pub fn extract_manning_values(hdf_file_path: String, _terrain_file_path: Option<String>) -> (inv:
    Invocation)
    ensures
        inv@ == call(MANNING_EXTRACTOR_SCRIPT@, seq![hdf_file_path@]),
{
    let args = vec![hdf_file_path];
    assert(args.deep_view() =~= seq![hdf_file_path@]);
    Invocation::new(MANNING_EXTRACTOR_SCRIPT, args)
}

/// Conversion of input data to rasters in `output_dir`.
pub fn convert_to_raster(input_data_path: String, output_dir: String) -> (inv: Invocation)
    ensures
        inv@ == call(RASTER_CONVERTER_SCRIPT@, seq!["convert"@, input_data_path@, output_dir@]),
{
    let args = vec!["convert".to_owned(), input_data_path, output_dir];
    assert(args.deep_view() =~= seq!["convert"@, input_data_path@, output_dir@]);
    Invocation::new(RASTER_CONVERTER_SCRIPT, args)
}

/// Description of a raster.
pub fn get_raster_info(raster_path: String) -> (inv: Invocation)
    ensures
        inv@ == call(RASTER_CONVERTER_SCRIPT@, seq!["info"@, raster_path@]),
{
    let args = vec!["info".to_owned(), raster_path];
    assert(args.deep_view() =~= seq!["info"@, raster_path@]);
    Invocation::new(RASTER_CONVERTER_SCRIPT, args)
}

/// Normal depth for a discharge, slope, Manning coefficient and width.
pub fn calculate_normal_depth(discharge: String, slope: String, manning_n: String, width: String) -> (inv:
    Invocation)
    ensures
        inv@ == call(
            HYDRAULIC_CALC_SCRIPT@,
            seq!["normal"@, discharge@, slope@, manning_n@, width@],
        ),
{
    let args = vec!["normal".to_owned(), discharge, slope, manning_n, width];
    assert(args.deep_view() =~= seq!["normal"@, discharge@, slope@, manning_n@, width@]);
    Invocation::new(HYDRAULIC_CALC_SCRIPT, args)
}

/// Critical depth for a discharge and width.
pub fn calculate_critical_depth(discharge: String, width: String) -> (inv: Invocation)
    ensures
        inv@ == call(HYDRAULIC_CALC_SCRIPT@, seq!["critical"@, discharge@, width@]),
{
    let args = vec!["critical".to_owned(), discharge, width];
    assert(args.deep_view() =~= seq!["critical"@, discharge@, width@]);
    Invocation::new(HYDRAULIC_CALC_SCRIPT, args)
}

/// Flow analysis for a discharge, depth, velocity, slope, Manning
/// coefficient and width.
pub fn analyze_flow_conditions(
    discharge: String,
    depth: String,
    velocity: String,
    slope: String,
    manning_n: String,
    width: String,
) -> (inv: Invocation)
    ensures
        inv@ == call(
            HYDRAULIC_CALC_SCRIPT@,
            seq!["analyze"@, discharge@, depth@, velocity@, slope@, manning_n@, width@],
        ),
{
    let args = vec!["analyze".to_owned(), discharge, depth, velocity, slope, manning_n, width];
    assert(args.deep_view() =~= seq![
        "analyze"@,
        discharge@,
        depth@,
        velocity@,
        slope@,
        manning_n@,
        width@,
    ]);
    Invocation::new(HYDRAULIC_CALC_SCRIPT, args)
}

/// Scour depth for a velocity, depth and median grain size.
pub fn calculate_scour_depth(velocity: String, depth: String, d50: String) -> (inv: Invocation)
    ensures
        inv@ == call(HYDRAULIC_CALC_SCRIPT@, seq!["scour"@, velocity@, depth@, d50@]),
{
    let args = vec!["scour".to_owned(), velocity, depth, d50];
    assert(args.deep_view() =~= seq!["scour"@, velocity@, depth@, d50@]);
    Invocation::new(HYDRAULIC_CALC_SCRIPT, args)
}

/// Froude number for a velocity and depth.
pub fn calculate_froude_number(velocity: String, depth: String) -> (inv: Invocation)
    ensures
        inv@ == call(HYDRAULIC_CALC_SCRIPT@, seq!["froude"@, velocity@, depth@]),
{
    let args = vec!["froude".to_owned(), velocity, depth];
    assert(args.deep_view() =~= seq!["froude"@, velocity@, depth@]);
    Invocation::new(HYDRAULIC_CALC_SCRIPT, args)
}

/// Extraction of one dataset of an HDF file.
pub fn extract_hdf_dataset(file_path: String, dataset_path: String) -> (inv: Invocation)
    ensures
        inv@ == call(HDF_DATA_EXTRACTOR_SCRIPT@, seq![file_path@, "extract"@, dataset_path@]),
{
    extractor_call(file_path, "extract", dataset_path)
}

/// Time series plot of one dataset of an HDF file.
pub fn create_time_series_plot(file_path: String, dataset_path: String) -> (inv: Invocation)
    ensures
        inv@ == call(HDF_DATA_EXTRACTOR_SCRIPT@, seq![file_path@, "plot"@, dataset_path@]),
{
    extractor_call(file_path, "plot", dataset_path)
}

/// Hydrograph of one dataset of an HDF file.
pub fn create_hydrograph(file_path: String, dataset_path: String) -> (inv: Invocation)
    ensures
        inv@ == call(HDF_DATA_EXTRACTOR_SCRIPT@, seq![file_path@, "hydrograph"@, dataset_path@]),
{
    extractor_call(file_path, "hydrograph", dataset_path)
}

/// One operation of the combined processing family, chosen by name. A name
/// the family does not know is not refused: it gets the plain shape.
pub fn process_pyhmt2d(
    operation: String,
    hdf_file: String,
    cell_id: Option<i32>,
    output_directory: Option<String>,
    terrain_file: Option<String>,
) -> (inv: Invocation)
    ensures
        inv@ == call(
            HECRAS_PROCESSOR_SCRIPT@,
            pyhmt2d_tokens(
                operation@,
                hdf_file@,
                cell_id,
                output_directory.deep_view(),
                terrain_file.deep_view(),
            ),
        ),
{
    let hydrograph = "hydrograph".to_owned();
    let export_vtk = "export_vtk".to_owned();
    let terrain_arg = terrain_arg_or_null(terrain_file);
    let args = if operation == hydrograph {
        let cell_arg = cell_arg_or_default(cell_id);
        let args = vec![operation, hdf_file, cell_arg, terrain_arg];
        assert(args.deep_view() =~= seq![operation@, hdf_file@, cell_arg@, terrain_arg@]);
        args
    } else if operation == export_vtk {
        let dir_arg = output_dir_arg_or_temp(output_directory);
        let args = vec![operation, hdf_file, dir_arg, terrain_arg];
        assert(args.deep_view() =~= seq![operation@, hdf_file@, dir_arg@, terrain_arg@]);
        args
    } else {
        let args = vec![operation, hdf_file, terrain_arg];
        assert(args.deep_view() =~= seq![operation@, hdf_file@, terrain_arg@]);
        args
    };
    Invocation::new(HECRAS_PROCESSOR_SCRIPT, args)
}

/// Processing of a HEC-RAS file, with or without terrain.
pub fn process_hec_ras_data(hdf_file_path: String, terrain_file_path: Option<String>) -> (inv:
    Invocation)
    ensures
        inv@ == call(
            HECRAS_PROCESSOR_SCRIPT@,
            seq!["process"@, hdf_file_path@, terrain_or_null(terrain_file_path.deep_view())],
        ),
{
    processor_call("process", hdf_file_path, terrain_file_path)
}

/// Hydrograph of one cell of a HEC-RAS file; cell 0 where none is named.
pub fn create_hydrograph_py_hmt2_d(
    hdf_file_path: String,
    cell_id: Option<i32>,
    terrain_file_path: Option<String>,
) -> (inv: Invocation)
    ensures
        inv@ == call(
            HECRAS_PROCESSOR_SCRIPT@,
            seq![
                "hydrograph"@,
                hdf_file_path@,
                cell_token(cell_id),
                terrain_or_null(terrain_file_path.deep_view()),
            ],
        ),
{
    let cell_arg = cell_arg_or_default(cell_id);
    let terrain_arg = terrain_arg_or_null(terrain_file_path);
    let args = vec!["hydrograph".to_owned(), hdf_file_path, cell_arg, terrain_arg];
    assert(args.deep_view() =~= seq!["hydrograph"@, hdf_file_path@, cell_arg@, terrain_arg@]);
    Invocation::new(HECRAS_PROCESSOR_SCRIPT, args)
}

/// Depth map of a HEC-RAS file.
pub fn create_depth_map_py_hmt2_d(hdf_file_path: String, terrain_file_path: Option<String>) -> (inv:
    Invocation)
    ensures
        inv@ == call(
            HECRAS_PROCESSOR_SCRIPT@,
            seq!["depth_map"@, hdf_file_path@, terrain_or_null(terrain_file_path.deep_view())],
        ),
{
    processor_call("depth_map", hdf_file_path, terrain_file_path)
}

/// Profile of a HEC-RAS file.
pub fn create_profile_py_hmt2_d(hdf_file_path: String, terrain_file_path: Option<String>) -> (inv:
    Invocation)
    ensures
        inv@ == call(
            HECRAS_PROCESSOR_SCRIPT@,
            seq!["profile"@, hdf_file_path@, terrain_or_null(terrain_file_path.deep_view())],
        ),
{
    processor_call("profile", hdf_file_path, terrain_file_path)
}

/// What a VTK export of a HEC-RAS file would hold.
pub fn get_vtk_export_info(hdf_file_path: String, terrain_file_path: Option<String>) -> (inv:
    Invocation)
    ensures
        inv@ == call(
            HECRAS_PROCESSOR_SCRIPT@,
            seq!["vtk_info"@, hdf_file_path@, terrain_or_null(terrain_file_path.deep_view())],
        ),
{
    processor_call("vtk_info", hdf_file_path, terrain_file_path)
}

/// The boundary conditions of a HEC-RAS file.
pub fn extract_boundary_conditions(hdf_file_path: String) -> (inv: Invocation)
    ensures
        inv@ == call(BOUNDARY_CONDITIONS_SCRIPT@, seq![hdf_file_path@]),
{
    let args = vec![hdf_file_path];
    assert(args.deep_view() =~= seq![hdf_file_path@]);
    Invocation::new(BOUNDARY_CONDITIONS_SCRIPT, args)
}

/// Export of the hydrographs of the named boundary conditions to
/// `output_path`, in `format`. The boundary conditions follow the fixed
/// tokens, one token each, in the order given.
pub fn export_hydrograph_data(
    hdf_file_path: String,
    boundary_conditions: Vec<String>,
    output_path: String,
    format: String,
) -> (inv: Invocation)
    ensures
        inv@ == call(
            HYDROGRAPH_EXPORTER_SCRIPT@,
            seq!["export_hydrograph"@, hdf_file_path@, output_path@, format@]
                + boundary_conditions.deep_view(),
        ),
{
    let mut boundary_conditions = boundary_conditions;
    let ghost conditions = boundary_conditions.deep_view();
    let mut args = vec!["export_hydrograph".to_owned(), hdf_file_path, output_path, format];
    args.append(&mut boundary_conditions);
    assert(args.deep_view() =~= seq!["export_hydrograph"@, hdf_file_path@, output_path@, format@]
        + conditions);
    Invocation::new(HYDROGRAPH_EXPORTER_SCRIPT, args)
}

/// The sentinel and the defaults, letter for letter: an absent terrain is
/// `null`, an absent cell is `0`, an absent output directory is `temp`;
/// a value that is present is its own token.
pub proof fn lemma_absent_values_have_fixed_tokens()
    ensures
        terrain_or_null(None) == "null"@,
        cell_token(None) == "0"@,
        output_dir_or_temp(None) == "temp"@,
        forall|path: Seq<char>| #[trigger] terrain_or_null(Some(path)) == path,
        forall|dir: Seq<char>| #[trigger] output_dir_or_temp(Some(dir)) == dir,
        forall|cell: i32| #[trigger] cell_token(Some(cell)) == decimal_text(cell as int),
{
    reveal_strlit("0");
    assert(decimal_text(0) =~= "0"@);
}

/// A hydrograph request of the family has four tokens: the operation, the
/// HDF file, the cell and the terrain. With neither cell nor terrain it
/// ends in `0` and `null`.
pub proof fn lemma_hydrograph_shape(
    hdf_file: Seq<char>,
    cell_id: Option<i32>,
    output_directory: Option<Seq<char>>,
    terrain_file: Option<Seq<char>>,
)
    ensures
        pyhmt2d_tokens("hydrograph"@, hdf_file, cell_id, output_directory, terrain_file)
            == seq!["hydrograph"@, hdf_file, cell_token(cell_id), terrain_or_null(terrain_file)],
        pyhmt2d_tokens("hydrograph"@, hdf_file, None, output_directory, None)
            == seq!["hydrograph"@, hdf_file, "0"@, "null"@],
{
    lemma_absent_values_have_fixed_tokens();
}

/// An export request of the family has four tokens: the operation, the HDF
/// file, the output directory and the terrain. Without an output
/// directory the third token is `temp`.
pub proof fn lemma_export_vtk_shape(
    hdf_file: Seq<char>,
    cell_id: Option<i32>,
    output_directory: Option<Seq<char>>,
    terrain_file: Option<Seq<char>>,
)
    ensures
        pyhmt2d_tokens("export_vtk"@, hdf_file, cell_id, output_directory, terrain_file) == seq![
            "export_vtk"@,
            hdf_file,
            output_dir_or_temp(output_directory),
            terrain_or_null(terrain_file),
        ],
        pyhmt2d_tokens("export_vtk"@, hdf_file, cell_id, None, terrain_file)[2] == "temp"@,
{
    reveal_strlit("export_vtk");
    reveal_strlit("hydrograph");
    assert("export_vtk"@[0] != "hydrograph"@[0]);
}

/// Every other operation of the family, known or not, has three tokens:
/// the operation, the HDF file and the terrain.
pub proof fn lemma_plain_shape(
    operation: Seq<char>,
    hdf_file: Seq<char>,
    cell_id: Option<i32>,
    output_directory: Option<Seq<char>>,
    terrain_file: Option<Seq<char>>,
)
    requires
        operation != "hydrograph"@,
        operation != "export_vtk"@,
    ensures
        pyhmt2d_tokens(operation, hdf_file, cell_id, output_directory, terrain_file) == seq![
            operation,
            hdf_file,
            terrain_or_null(terrain_file),
        ],
{
}

/// The operations `process`, `depth_map` and `profile` have the plain
/// shape, so the family's dispatcher and the operations named after them
/// ask the backend for the same thing.
pub proof fn lemma_named_operations_are_plain(
    hdf_file: Seq<char>,
    cell_id: Option<i32>,
    output_directory: Option<Seq<char>>,
    terrain_file: Option<Seq<char>>,
)
    ensures
        pyhmt2d_tokens("process"@, hdf_file, cell_id, output_directory, terrain_file) == seq![
            "process"@,
            hdf_file,
            terrain_or_null(terrain_file),
        ],
        pyhmt2d_tokens("depth_map"@, hdf_file, cell_id, output_directory, terrain_file) == seq![
            "depth_map"@,
            hdf_file,
            terrain_or_null(terrain_file),
        ],
        pyhmt2d_tokens("profile"@, hdf_file, cell_id, output_directory, terrain_file) == seq![
            "profile"@,
            hdf_file,
            terrain_or_null(terrain_file),
        ],
{
    reveal_strlit("export_vtk");
    reveal_strlit("hydrograph");
    reveal_strlit("process");
    reveal_strlit("depth_map");
    reveal_strlit("profile");
    assert("process"@.len() != "hydrograph"@.len());
    assert("depth_map"@.len() != "hydrograph"@.len());
    assert("profile"@.len() != "hydrograph"@.len());
}

/// An absent optional value never shortens the list: how many tokens a
/// request of the family has, and its first two tokens, depend on the
/// operation and the HDF file alone.
pub proof fn lemma_absent_values_keep_shape(
    operation: Seq<char>,
    hdf_file: Seq<char>,
    cell_id: Option<i32>,
    output_directory: Option<Seq<char>>,
    terrain_file: Option<Seq<char>>,
)
    ensures
        pyhmt2d_tokens(operation, hdf_file, cell_id, output_directory, terrain_file).len()
            == pyhmt2d_tokens(operation, hdf_file, None, None, None).len(),
        pyhmt2d_tokens(operation, hdf_file, cell_id, output_directory, terrain_file).len() >= 3,
        pyhmt2d_tokens(operation, hdf_file, cell_id, output_directory, terrain_file)[0]
            == operation,
        pyhmt2d_tokens(operation, hdf_file, cell_id, output_directory, terrain_file)[1]
            == hdf_file,
        pyhmt2d_tokens(operation, hdf_file, cell_id, output_directory, terrain_file).last()
            == terrain_or_null(terrain_file),
{
}

} // verus!
