//! The interactive export flow. An export first asks its user for a
//! destination. While the prompt is open the export is pending; the answer
//! either resolves it into a request for the backend or cancels it, and a
//! cancelled export never reaches the backend.

use vstd::prelude::*;
use crate::command::{call, Invocation, InvocationView};
use crate::envelope::{EnvelopeView, PythonResult};
use crate::outcome::CompletionView;
use crate::session::{bridged, lemma_call_ends_well_formed};
use crate::operations::{
    terrain_arg_or_null, terrain_or_null, HDF_DATA_EXTRACTOR_SCRIPT, HECRAS_PROCESSOR_SCRIPT,
};
use crate::text::{append_text, replace_separators, underscored};

verus! {

/// The error of an export whose user chose no destination.
pub const CANCELLED_MESSAGE: &'static str = "Exportación cancelada por el usuario";

/// What a VTK export writes when its caller names no export type.
pub const DEFAULT_EXPORT_TYPE: &'static str = "all_timesteps";

/// What every suggested file name starts with.
pub const SUGGESTED_NAME_PREFIX: &'static str = "hdf_export_";

/// The question put to the user before an export.
#[derive(Debug, Clone, PartialEq, Eq)]
pub enum Prompt {
    /// Ask where to save a file.
    SaveFile {
        /// Title of the dialog.
        title: String,
        /// File name the dialog starts with.
        file_name: String,
        /// Label of the dialog's one file filter.
        filter_name: String,
        /// File extension the filter lets through, without a dot.
        extension: String,
    },
    /// Ask for a folder.
    PickFolder {
        /// Title of the dialog.
        title: String,
        /// Directory the dialog opens in.
        directory: String,
    },
}

/// Mathematical content of a [`Prompt`].
pub enum PromptView {
    SaveFile { title: Seq<char>, file_name: Seq<char>, filter_name: Seq<char>, extension: Seq<char> },
    PickFolder { title: Seq<char>, directory: Seq<char> },
}

impl View for Prompt {
    type V = PromptView;

    open spec fn view(&self) -> PromptView {
        match self {
            Prompt::SaveFile { title, file_name, filter_name, extension } => PromptView::SaveFile {
                title: title@,
                file_name: file_name@,
                filter_name: filter_name@,
                extension: extension@,
            },
            Prompt::PickFolder { title, directory } => PromptView::PickFolder {
                title: title@,
                directory: directory@,
            },
        }
    }
}

/// An export that awaits its destination: the script, and the tokens that
/// will stand before and after the destination.
#[derive(Debug, Clone, PartialEq, Eq)]
pub struct PendingExport {
    pub script: String,
    pub before: Vec<String>,
    pub after: Vec<String>,
}

/// Mathematical content of a [`PendingExport`].
pub struct PendingExportView {
    pub script: Seq<char>,
    pub before: Seq<Seq<char>>,
    pub after: Seq<Seq<char>>,
}

impl View for PendingExport {
    type V = PendingExportView;

    open spec fn view(&self) -> PendingExportView {
        PendingExportView {
            script: self.script@,
            before: self.before.deep_view(),
            after: self.after.deep_view(),
        }
    }
}

/// An export at its start: the prompt to show, and the export that the
/// answer will resolve or cancel.
#[derive(Debug, Clone, PartialEq, Eq)]
pub struct ExportFlow {
    pub prompt: Prompt,
    pub pending: PendingExport,
}

/// Mathematical content of an [`ExportFlow`].
pub struct ExportFlowView {
    pub prompt: PromptView,
    pub pending: PendingExportView,
}

impl View for ExportFlow {
    type V = ExportFlowView;

    open spec fn view(&self) -> ExportFlowView {
        ExportFlowView { prompt: self.prompt@, pending: self.pending@ }
    }
}

/// Where an export stands once its prompt was answered.
#[derive(Debug, Clone, PartialEq, Eq)]
pub enum Resolution {
    /// A destination was chosen: this is the request for the backend.
    Resolved(Invocation),
    /// Nothing was chosen: this is the result, and the backend is not
    /// called.
    Cancelled(PythonResult),
}

/// Mathematical content of a [`Resolution`].
pub enum ResolutionView {
    Resolved(InvocationView),
    Cancelled(EnvelopeView),
}

impl View for Resolution {
    type V = ResolutionView;

    open spec fn view(&self) -> ResolutionView {
        match self {
            Resolution::Resolved(invocation) => ResolutionView::Resolved(invocation@),
            Resolution::Cancelled(result) => ResolutionView::Cancelled(result@),
        }
    }
}

/// The file name suggested for the export of `dataset_path` with the file
/// extension `extension`: the prefix, the dataset path with its slashes
/// and spaces turned into underscores, a dot, and the extension.
pub open spec fn suggested_name(dataset_path: Seq<char>, extension: Seq<char>) -> Seq<char> {
    SUGGESTED_NAME_PREFIX@ + underscored(dataset_path) + "."@ + extension
}

/// The flow of a dataset export to one file.
pub open spec fn dataset_export_flow(
    file_path: Seq<char>,
    dataset_path: Seq<char>,
    title: Seq<char>,
    filter_name: Seq<char>,
    extension: Seq<char>,
    mode: Seq<char>,
) -> ExportFlowView {
    ExportFlowView {
        prompt: PromptView::SaveFile {
            title,
            file_name: suggested_name(dataset_path, extension),
            filter_name,
            extension,
        },
        pending: PendingExportView {
            script: HDF_DATA_EXTRACTOR_SCRIPT@,
            before: seq![file_path, mode, dataset_path],
            after: Seq::empty(),
        },
    }
}

/// The token for an optional export type: the type, or the default one.
pub open spec fn export_type_or_default(export_type: Option<Seq<char>>) -> Seq<char> {
    match export_type {
        Some(kind) => kind,
        None => DEFAULT_EXPORT_TYPE@,
    }
}

/// The flow of a VTK export into a folder.
pub open spec fn vtk_export_flow(
    hdf_file_path: Seq<char>,
    terrain_file_path: Option<Seq<char>>,
    export_type: Option<Seq<char>>,
) -> ExportFlowView {
    ExportFlowView {
        prompt: PromptView::PickFolder {
            title: "Seleccionar carpeta para exportar archivos VTK"@,
            directory: "/"@,
        },
        pending: PendingExportView {
            script: HECRAS_PROCESSOR_SCRIPT@,
            before: seq!["export_vtk"@, hdf_file_path],
            after: seq![terrain_or_null(terrain_file_path), export_type_or_default(export_type)],
        },
    }
}

/// What the answer to the prompt makes of a pending export. A chosen
/// destination takes its place between the tokens that were waiting for
/// it; no choice cancels the export with the fixed message.
pub open spec fn resolved(pending: PendingExportView, selection: Option<Seq<char>>) -> ResolutionView {
    match selection {
        Some(destination) => ResolutionView::Resolved(
            call(pending.script, pending.before + seq![destination] + pending.after),
        ),
        None => ResolutionView::Cancelled(EnvelopeView::failed(CANCELLED_MESSAGE@)),
    }
}

fn suggest_name(dataset_path: &str, extension: &str) -> (name: String)
    ensures
        name@ == suggested_name(dataset_path@, extension@),
{
    let safe = replace_separators(dataset_path);
    let mut name = append_text(SUGGESTED_NAME_PREFIX, safe.as_str());
    name.append(".");
    name.append(extension);
    name
}

fn dataset_export(
    file_path: String,
    dataset_path: String,
    title: &str,
    filter_name: &str,
    extension: &str,
    mode: &str,
) -> (flow: ExportFlow)
    ensures
        flow@ == dataset_export_flow(
            file_path@,
            dataset_path@,
            title@,
            filter_name@,
            extension@,
            mode@,
        ),
{
    let file_name = suggest_name(dataset_path.as_str(), extension);
    let before = vec![file_path, mode.to_owned(), dataset_path];
    assert(before.deep_view() =~= seq![file_path@, mode@, dataset_path@]);
    let after: Vec<String> = Vec::new();
    assert(after.deep_view() =~= Seq::<Seq<char>>::empty());
    ExportFlow {
        prompt: Prompt::SaveFile {
            title: title.to_owned(),
            file_name,
            filter_name: filter_name.to_owned(),
            extension: extension.to_owned(),
        },
        pending: PendingExport { script: HDF_DATA_EXTRACTOR_SCRIPT.to_owned(), before, after },
    }
}

/// Starts the export of one dataset of an HDF file to a CSV file.
pub fn export_hdf_to_csv(file_path: String, dataset_path: String) -> (flow: ExportFlow)
    ensures
        flow@ == dataset_export_flow(
            file_path@,
            dataset_path@,
            "Guardar archivo CSV"@,
            "Archivos CSV"@,
            "csv"@,
            "export_csv"@,
        ),
{
    dataset_export(
        file_path,
        dataset_path,
        "Guardar archivo CSV",
        "Archivos CSV",
        "csv",
        "export_csv",
    )
}

/// Starts the export of one dataset of an HDF file to a JSON file.
pub fn export_hdf_to_json(file_path: String, dataset_path: String) -> (flow: ExportFlow)
    ensures
        flow@ == dataset_export_flow(
            file_path@,
            dataset_path@,
            "Guardar archivo JSON"@,
            "Archivos JSON"@,
            "json"@,
            "export_json"@,
        ),
{
    dataset_export(
        file_path,
        dataset_path,
        "Guardar archivo JSON",
        "Archivos JSON",
        "json",
        "export_json",
    )
}

/// Starts the export of a HEC-RAS file to VTK files in a folder of the
/// user's choice.
pub fn export_to_vtk_py_hmt2_d(
    hdf_file_path: String,
    terrain_file_path: Option<String>,
    export_type: Option<String>,
) -> (flow: ExportFlow)
    ensures
        flow@ == vtk_export_flow(
            hdf_file_path@,
            terrain_file_path.deep_view(),
            export_type.deep_view(),
        ),
{
    let terrain_arg = terrain_arg_or_null(terrain_file_path);
    let export_type_arg = match export_type {
        Some(kind) => kind,
        None => DEFAULT_EXPORT_TYPE.to_owned(),
    };
    let before = vec!["export_vtk".to_owned(), hdf_file_path];
    assert(before.deep_view() =~= seq!["export_vtk"@, hdf_file_path@]);
    let after = vec![terrain_arg, export_type_arg];
    assert(after.deep_view() =~= seq![terrain_arg@, export_type_arg@]);
    ExportFlow {
        prompt: Prompt::PickFolder {
            title: "Seleccionar carpeta para exportar archivos VTK".to_owned(),
            directory: "/".to_owned(),
        },
        pending: PendingExport { script: HECRAS_PROCESSOR_SCRIPT.to_owned(), before, after },
    }
}

impl PendingExport {
    /// Ends the wait for a destination. `selection` is the path the user
    /// chose, or `None` where the prompt was dismissed.
    pub fn resolve(self, selection: Option<String>) -> (resolution: Resolution)
        ensures
            resolution@ == resolved(self@, selection.deep_view()),
            selection is None ==> resolution@ == ResolutionView::Cancelled(
                EnvelopeView::failed(CANCELLED_MESSAGE@),
            ),
            selection is Some ==> resolution@ is Resolved,
            resolution matches Resolution::Cancelled(result) ==> result@.well_formed(),
    {
        match selection {
            Some(destination) => {
                let PendingExport { script, before, after } = self;
                let mut args = before;
                let mut after = after;
                let ghost head = args.deep_view();
                let ghost tail = after.deep_view();
                args.push(destination);
                args.append(&mut after);
                assert(args.deep_view() =~= head + seq![destination@] + tail);
                Resolution::Resolved(Invocation { script, args })
            },
            None => Resolution::Cancelled(PythonResult::failed(CANCELLED_MESSAGE.to_owned())),
        }
    }
}

/// The envelope of a whole export: the cancellation where nothing was
/// chosen, else that of the backend call for the resolved request.
pub open spec fn exported(
    pending: PendingExportView,
    selection: Option<Seq<char>>,
    working_dir: Seq<char>,
    disk: spec_fn(Seq<char>) -> bool,
    completion: CompletionView,
) -> EnvelopeView {
    match resolved(pending, selection) {
        ResolutionView::Cancelled(envelope) => envelope,
        ResolutionView::Resolved(invocation) => bridged(working_dir, invocation, disk, completion),
    }
}

/// An export whose prompt was dismissed ends in the fixed cancellation,
/// whatever the disk holds and whatever a process would have done: neither
/// is looked at. Every export, dismissed or not, ends in an envelope with
/// exactly one of payload and error.
pub proof fn lemma_export_ends_well_formed(
    pending: PendingExportView,
    selection: Option<Seq<char>>,
    working_dir: Seq<char>,
    disk: spec_fn(Seq<char>) -> bool,
    completion: CompletionView,
)
    ensures
        selection is None ==> exported(pending, selection, working_dir, disk, completion)
            == EnvelopeView::failed(CANCELLED_MESSAGE@),
        exported(pending, selection, working_dir, disk, completion).well_formed(),
{
    match resolved(pending, selection) {
        ResolutionView::Cancelled(_) => {},
        ResolutionView::Resolved(invocation) => {
            lemma_call_ends_well_formed(working_dir, invocation, disk, completion);
        },
    }
}

} // verus!
