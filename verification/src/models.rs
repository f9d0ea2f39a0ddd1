//! The registry of speech recognition models, and the bookkeeping around
//! listing, locating, downloading and deleting them.
//!
//! The file system and network work is done by the caller; the functions
//! here decide what to do from plain values (which model folders exist on
//! disk, which model is asked for).

use vstd::prelude::*;
use vstd::string::StringExecFns;
use crate::text::str_equal;

verus! {

/// A model the application knows about.
pub struct ModelDef {
    pub id: &'static str,
    pub name: &'static str,
    pub description: &'static str,
    pub language: &'static str,
    pub size_mb: u32,
    pub is_bundled: bool,
    pub download_url: Option<&'static str>,
    /// Folder name inside the downloaded archive and on disk.
    pub folder_name: &'static str,
    /// Stem shared by the encoder, decoder and joiner files.
    pub model_stem: &'static str,
}

/// A `ModelDef` with its strings as characters.
pub struct ModelDefView {
    pub id: Seq<char>,
    pub name: Seq<char>,
    pub description: Seq<char>,
    pub language: Seq<char>,
    pub size_mb: u32,
    pub is_bundled: bool,
    pub download_url: Option<Seq<char>>,
    pub folder_name: Seq<char>,
    pub model_stem: Seq<char>,
}

pub open spec fn opt_str_view(s: Option<&'static str>) -> Option<Seq<char>> {
    match s {
        Some(u) => Some(u@),
        None => None,
    }
}

impl View for ModelDef {
    type V = ModelDefView;

    open spec fn view(&self) -> ModelDefView {
        ModelDefView {
            id: self.id@,
            name: self.name@,
            description: self.description@,
            language: self.language@,
            size_mb: self.size_mb,
            is_bundled: self.is_bundled,
            download_url: opt_str_view(self.download_url),
            folder_name: self.folder_name@,
            model_stem: self.model_stem@,
        }
    }
}

/// The models, in the order they are listed.
pub open spec fn model_registry() -> Seq<ModelDefView> {
    seq![
        ModelDefView {
            id: "sherpa-zh"@,
            name: "ZipFormer Chinese"@,
            description: "Multi-dialect Chinese · bundled"@,
            language: "zh"@,
            size_mb: 248,
            is_bundled: true,
            download_url: None,
            folder_name: "sherpa-onnx-zipformer-multi-zh-hans-2023-9-2"@,
            model_stem: "epoch-20-avg-1"@,
        },
        ModelDefView {
            id: "sherpa-en"@,
            name: "ZipFormer English"@,
            description: "English · ~300 MB download"@,
            language: "en"@,
            size_mb: 300,
            is_bundled: false,
            download_url: Some(
                "https://github.com/k2-fsa/sherpa-onnx/releases/download/asr-models/sherpa-onnx-zipformer-en-2023-06-26.tar.bz2"@,
            ),
            folder_name: "sherpa-onnx-zipformer-en-2023-06-26"@,
            model_stem: "epoch-99-avg-1"@,
        },
    ]
}

/// The registry as executable values.
pub fn models() -> (defs: Vec<ModelDef>)
    ensures
        defs@.map_values(|d: ModelDef| d@) == model_registry(),
{
    let defs = vec![
        ModelDef {
            id: "sherpa-zh",
            name: "ZipFormer Chinese",
            description: "Multi-dialect Chinese · bundled",
            language: "zh",
            size_mb: 248,
            is_bundled: true,
            download_url: None,
            folder_name: "sherpa-onnx-zipformer-multi-zh-hans-2023-9-2",
            model_stem: "epoch-20-avg-1",
        },
        ModelDef {
            id: "sherpa-en",
            name: "ZipFormer English",
            description: "English · ~300 MB download",
            language: "en",
            size_mb: 300,
            is_bundled: false,
            download_url: Some(
                "https://github.com/k2-fsa/sherpa-onnx/releases/download/asr-models/sherpa-onnx-zipformer-en-2023-06-26.tar.bz2",
            ),
            folder_name: "sherpa-onnx-zipformer-en-2023-06-26",
            model_stem: "epoch-99-avg-1",
        },
    ];
    assert(defs@.map_values(|d: ModelDef| d@) =~= model_registry());
    defs
}

/// `i` is the first position of the registry holding the model `id`.
pub open spec fn is_first_index(id: Seq<char>, i: int) -> bool {
    &&& 0 <= i < model_registry().len()
    &&& model_registry()[i].id == id
    &&& forall|j: int| 0 <= j < i ==> model_registry()[j].id != id
}

/// No model of the registry has `id`.
pub open spec fn is_unknown(id: Seq<char>) -> bool {
    forall|j: int| 0 <= j < model_registry().len() ==> model_registry()[j].id != id
}

/// The position of the model `model_id` in the registry.
pub fn model_index(model_id: &str) -> (r: Option<usize>)
    ensures
        match r {
            Some(i) => is_first_index(model_id@, i as int),
            None => is_unknown(model_id@),
        },
{
    let defs = models();
    let ghost reg = model_registry();
    for i in 0..defs.len()
        invariant
            defs@.map_values(|d: ModelDef| d@) == reg,
            reg == model_registry(),
            forall|j: int| 0 <= j < i ==> reg[j].id != model_id@,
    {
        assert(reg[i as int] == defs@[i as int]@);
        if str_equal(defs[i].id, model_id) {
            return Some(i);
        }
    }
    None
}

/// The definition of the model `model_id`.
pub fn find_model(model_id: &str) -> (r: Option<ModelDef>)
    ensures
        match r {
            Some(d) => exists|i: int| is_first_index(model_id@, i) && d@ == model_registry()[i],
            None => is_unknown(model_id@),
        },
{
    match model_index(model_id) {
        Some(i) => {
            let defs = models();
            let ghost reg = model_registry();
            assert(reg[i as int] == defs@[i as int]@);
            let d = ModelDef {
                id: defs[i].id,
                name: defs[i].name,
                description: defs[i].description,
                language: defs[i].language,
                size_mb: defs[i].size_mb,
                is_bundled: defs[i].is_bundled,
                download_url: defs[i].download_url,
                folder_name: defs[i].folder_name,
                model_stem: defs[i].model_stem,
            };
            Some(d)
        },
        None => None,
    }
}

/// What the model list shows for one model.
pub struct ModelInfo {
    pub id: String,
    pub name: String,
    pub description: String,
    pub language: String,
    pub size_mb: u32,
    /// `"bundled"`, `"installed"` or `"not_installed"`.
    pub status: String,
    pub is_bundled: bool,
}

/// A `ModelInfo` with its strings as characters.
pub struct ModelInfoView {
    pub id: Seq<char>,
    pub name: Seq<char>,
    pub description: Seq<char>,
    pub language: Seq<char>,
    pub size_mb: u32,
    pub status: Seq<char>,
    pub is_bundled: bool,
}

impl View for ModelInfo {
    type V = ModelInfoView;

    open spec fn view(&self) -> ModelInfoView {
        ModelInfoView {
            id: self.id@,
            name: self.name@,
            description: self.description@,
            language: self.language@,
            size_mb: self.size_mb,
            status: self.status@,
            is_bundled: self.is_bundled,
        }
    }
}

/// The status of a model: bundled ones are always `"bundled"`; the others
/// are `"installed"` when their folder is on disk.
pub open spec fn status_label(is_bundled: bool, installed: bool) -> Seq<char> {
    if is_bundled {
        "bundled"@
    } else if installed {
        "installed"@
    } else {
        "not_installed"@
    }
}

/// `folder` is one of `folders`.
pub open spec fn folder_present(folders: Seq<String>, folder: Seq<char>) -> bool {
    exists|j: int| 0 <= j < folders.len() && #[trigger] folders[j]@ == folder
}

/// The list entry of model `d`, given the folder names found in the models
/// directory.
pub open spec fn model_info_of(d: ModelDefView, folders: Seq<String>) -> ModelInfoView {
    ModelInfoView {
        id: d.id,
        name: d.name,
        description: d.description,
        language: d.language,
        size_mb: d.size_mb,
        status: status_label(d.is_bundled, folder_present(folders, d.folder_name)),
        is_bundled: d.is_bundled,
    }
}

/// The status the model list gives: a bundled model is `"bundled"`; any
/// other model is `"installed"` exactly when its folder name is one of the
/// names found in the models directory, at whatever position.
pub proof fn lemma_listing_status(d: ModelDefView, folders: Seq<String>, j: int)
    ensures
        d.is_bundled ==> model_info_of(d, folders).status == "bundled"@,
        !d.is_bundled && 0 <= j < folders.len() && folders[j]@ == d.folder_name ==> model_info_of(
            d,
            folders,
        ).status == "installed"@,
        !d.is_bundled && (forall|t: int| 0 <= t < folders.len() ==> folders[t]@ != d.folder_name)
            ==> model_info_of(d, folders).status == "not_installed"@,
{
}

/// The registry holds exactly the two shipped models: the bundled Chinese
/// model, and the English model downloaded from the sherpa-onnx ASR model
/// release; their ids are told apart, so each id finds its own entry.
pub proof fn lemma_registry_contents()
    ensures
        model_registry().len() == 2,
        model_registry()[0].id == "sherpa-zh"@,
        model_registry()[0].is_bundled,
        model_registry()[0].download_url is None,
        model_registry()[0].folder_name == "sherpa-onnx-zipformer-multi-zh-hans-2023-9-2"@,
        model_registry()[0].model_stem == "epoch-20-avg-1"@,
        model_registry()[0].size_mb == 248,
        model_registry()[1].id == "sherpa-en"@,
        !model_registry()[1].is_bundled,
        model_registry()[1].download_url == Some(
            "https://github.com/k2-fsa/sherpa-onnx/releases/download/"@ + "asr-models/"@
                + "sherpa-onnx-zipformer-en-2023-06-26.tar.bz2"@,
        ),
        model_registry()[1].folder_name == "sherpa-onnx-zipformer-en-2023-06-26"@,
        model_registry()[1].model_stem == "epoch-99-avg-1"@,
        model_registry()[1].size_mb == 300,
        is_first_index("sherpa-zh"@, 0),
        is_first_index("sherpa-en"@, 1),
{
    reveal_strlit("sherpa-zh");
    reveal_strlit("sherpa-en");
    reveal_strlit(
        "https://github.com/k2-fsa/sherpa-onnx/releases/download/asr-models/sherpa-onnx-zipformer-en-2023-06-26.tar.bz2",
    );
    reveal_strlit("https://github.com/k2-fsa/sherpa-onnx/releases/download/");
    reveal_strlit("asr-models/");
    reveal_strlit("sherpa-onnx-zipformer-en-2023-06-26.tar.bz2");
    assert("https://github.com/k2-fsa/sherpa-onnx/releases/download/asr-models/sherpa-onnx-zipformer-en-2023-06-26.tar.bz2"@
        =~= "https://github.com/k2-fsa/sherpa-onnx/releases/download/"@ + "asr-models/"@
        + "sherpa-onnx-zipformer-en-2023-06-26.tar.bz2"@);
    assert("sherpa-zh"@[7] != "sherpa-en"@[7]);
}

/// Whether `folder` is among `folders`.
fn contains_folder(folders: &Vec<String>, folder: &str) -> (b: bool)
    ensures
        b == folder_present(folders@, folder@),
{
    for j in 0..folders.len()
        invariant
            forall|t: int| 0 <= t < j ==> folders@[t]@ != folder@,
    {
        if str_equal(folders[j].as_str(), folder) {
            return true;
        }
    }
    false
}

/// The status of model `def` (see `status_label`), where `installed` says
/// whether its folder exists in the models directory.
pub fn model_status(def: &ModelDef, installed: bool) -> (s: String)
    ensures
        s@ == status_label(def.is_bundled, installed),
{
    if def.is_bundled {
        return "bundled".to_owned();
    }
    if installed {
        "installed".to_owned()
    } else {
        "not_installed".to_owned()
    }
}

/// The model list, in registry order, given the names of the folders found
/// in the models directory.
pub fn list_models(installed_folders: &Vec<String>) -> (infos: Vec<ModelInfo>)
    ensures
        infos@.len() == model_registry().len(),
        forall|i: int|
            0 <= i < infos@.len() ==> #[trigger] infos@[i]@ == model_info_of(
                model_registry()[i],
                installed_folders@,
            ),
{
    let defs = models();
    let ghost reg = model_registry();
    let mut infos: Vec<ModelInfo> = Vec::new();
    for i in 0..defs.len()
        invariant
            defs@.map_values(|d: ModelDef| d@) == reg,
            reg == model_registry(),
            infos@.len() == i,
            forall|t: int|
                0 <= t < i ==> #[trigger] infos@[t]@ == model_info_of(reg[t], installed_folders@),
    {
        let d = &defs[i];
        assert(reg[i as int] == d@);
        let installed = contains_folder(installed_folders, d.folder_name);
        let info = ModelInfo {
            id: d.id.to_owned(),
            name: d.name.to_owned(),
            description: d.description.to_owned(),
            language: d.language.to_owned(),
            size_mb: d.size_mb,
            status: model_status(d, installed),
            is_bundled: d.is_bundled,
        };
        infos.push(info);
    }
    infos
}

/// Where a model's files are.
pub enum ModelLocation {
    /// Shipped with the application, at this path relative to its resources.
    Resource(String),
    /// Downloaded, in this folder of the models directory.
    Downloaded(String),
}

/// The path of a bundled model relative to the application resources.
pub open spec fn resource_path(folder: Seq<char>) -> Seq<char> {
    "resources/models/sherpa-zh/"@ + folder
}

/// Where the files of model `model_id` are, with the stem of its file names.
/// A downloaded model is only usable when its folder exists, which the
/// caller checks.
pub fn model_location(model_id: &str) -> (r: Option<(ModelLocation, &'static str)>)
    ensures
        match r {
            Some((loc, stem)) => exists|i: int|
                {
                    &&& is_first_index(model_id@, i)
                    &&& stem@ == model_registry()[i].model_stem
                    &&& match loc {
                        ModelLocation::Resource(p) => model_registry()[i].is_bundled && p@
                            == resource_path(model_registry()[i].folder_name),
                        ModelLocation::Downloaded(f) => !model_registry()[i].is_bundled && f@
                            == model_registry()[i].folder_name,
                    }
                },
            None => is_unknown(model_id@),
        },
{
    match find_model(model_id) {
        Some(d) => {
            let loc = if d.is_bundled {
                let mut p = "resources/models/sherpa-zh/".to_owned();
                p.append(d.folder_name);
                ModelLocation::Resource(p)
            } else {
                ModelLocation::Downloaded(d.folder_name.to_owned())
            };
            Some((loc, d.model_stem))
        },
        None => None,
    }
}

/// Why a model operation was refused.
#[derive(Debug, Clone)]
pub enum ModelError {
    /// No model has this id.
    UnknownModel(String),
    /// The model has no download URL.
    NotDownloadable(String),
    /// Bundled models cannot be deleted.
    CannotDeleteBundled,
}

/// The message shown for each error.
pub open spec fn error_message(e: ModelError) -> Seq<char> {
    match e {
        ModelError::UnknownModel(id) => "Unknown model: "@ + id@,
        ModelError::NotDownloadable(id) => "Model "@ + id@ + " is not downloadable"@,
        ModelError::CannotDeleteBundled => "Cannot delete bundled model"@,
    }
}

impl ModelError {
    /// The message shown to the user.
    pub fn message(&self) -> (s: String)
        ensures
            s@ == error_message(*self),
    {
        match self {
            ModelError::UnknownModel(id) => {
                let mut s = "Unknown model: ".to_owned();
                s.append(id.as_str());
                s
            },
            ModelError::NotDownloadable(id) => {
                let mut s = "Model ".to_owned();
                s.append(id.as_str());
                s.append(" is not downloadable");
                s
            },
            ModelError::CannotDeleteBundled => "Cannot delete bundled model".to_owned(),
        }
    }
}

/// What a download fetches and where it goes.
pub struct DownloadSource {
    /// The archive's URL.
    pub url: &'static str,
    /// The folder the archive unpacks to.
    pub folder_name: &'static str,
    /// The temporary file the archive is written to, in the models directory.
    pub archive_name: String,
}

/// The temporary archive name of model `id`.
pub open spec fn archive_name(id: Seq<char>) -> Seq<char> {
    id + ".tar.bz2.tmp"@
}

/// What to download for model `model_id`: unknown models and models without
/// a URL are refused.
pub fn download_source(model_id: &str) -> (r: Result<DownloadSource, ModelError>)
    ensures
        match r {
            Ok(src) => exists|i: int|
                {
                    &&& is_first_index(model_id@, i)
                    &&& model_registry()[i].download_url == Some(src.url@)
                    &&& src.folder_name@ == model_registry()[i].folder_name
                    &&& src.archive_name@ == archive_name(model_id@)
                },
            Err(ModelError::UnknownModel(id)) => is_unknown(model_id@) && id@ == model_id@,
            Err(ModelError::NotDownloadable(id)) => exists|i: int|
                is_first_index(model_id@, i) && model_registry()[i].download_url is None && id@
                    == model_id@,
            Err(ModelError::CannotDeleteBundled) => false,
        },
{
    match find_model(model_id) {
        None => Err(ModelError::UnknownModel(model_id.to_owned())),
        Some(d) => match d.download_url {
            None => Err(ModelError::NotDownloadable(model_id.to_owned())),
            Some(url) => {
                let mut archive = model_id.to_owned();
                archive.append(".tar.bz2.tmp");
                Ok(DownloadSource { url, folder_name: d.folder_name, archive_name: archive })
            },
        },
    }
}

/// The folder to remove from the models directory to delete model
/// `model_id`: unknown and bundled models are refused.
pub fn deletion_folder(model_id: &str) -> (r: Result<&'static str, ModelError>)
    ensures
        match r {
            Ok(folder) => exists|i: int|
                is_first_index(model_id@, i) && !model_registry()[i].is_bundled && folder@
                    == model_registry()[i].folder_name,
            Err(ModelError::UnknownModel(id)) => is_unknown(model_id@) && id@ == model_id@,
            Err(ModelError::CannotDeleteBundled) => exists|i: int|
                is_first_index(model_id@, i) && model_registry()[i].is_bundled,
            Err(ModelError::NotDownloadable(_)) => false,
        },
{
    match find_model(model_id) {
        None => Err(ModelError::UnknownModel(model_id.to_owned())),
        Some(d) => if d.is_bundled {
            Err(ModelError::CannotDeleteBundled)
        } else {
            Ok(d.folder_name)
        },
    }
}

/// The cancellation handles of running downloads: at most one per model of
/// the registry, in registry order.
pub struct CancelRegistry<T> {
    slots: Vec<Option<T>>,
}

impl<T> View for CancelRegistry<T> {
    type V = Seq<Option<T>>;

    closed spec fn view(&self) -> Seq<Option<T>> {
        self.slots@
    }
}

/// The slots after `handle` is registered for `id` (unchanged for an
/// unknown id).
pub open spec fn registered<T>(slots: Seq<Option<T>>, id: Seq<char>, handle: T) -> Seq<
    Option<T>,
> {
    if exists|i: int| is_first_index(id, i) {
        slots.update(choose|i: int| is_first_index(id, i), Some(handle))
    } else {
        slots
    }
}

/// The handle registered for `id`, if any.
pub open spec fn pending<T>(slots: Seq<Option<T>>, id: Seq<char>) -> Option<T> {
    if exists|i: int| is_first_index(id, i) {
        slots[choose|i: int| is_first_index(id, i)]
    } else {
        None
    }
}

/// The slots after the handle of `id` is taken out.
pub open spec fn released<T>(slots: Seq<Option<T>>, id: Seq<char>) -> Seq<Option<T>> {
    if exists|i: int| is_first_index(id, i) {
        slots.update(choose|i: int| is_first_index(id, i), None)
    } else {
        slots
    }
}

proof fn lemma_first_index_unique(id: Seq<char>, i: int, j: int)
    requires
        is_first_index(id, i),
        is_first_index(id, j),
    ensures
        i == j,
{
}

impl<T> CancelRegistry<T> {
    /// One slot per registry model.
    pub open spec fn wf(&self) -> bool {
        self@.len() == model_registry().len()
    }

    /// A registry with no download running.
    pub fn new() -> (r: Self)
        ensures
            r.wf(),
            r@.len() == model_registry().len(),
            forall|i: int| 0 <= i < r@.len() ==> r@[i] is None,
    {
        let mut slots: Vec<Option<T>> = Vec::new();
        let defs = models();
        let n = defs.len();
        assert(defs@.map_values(|d: ModelDef| d@).len() == defs@.len());
        for i in 0..n
            invariant
                slots@.len() == i,
                forall|t: int| 0 <= t < i ==> slots@[t] is None,
        {
            slots.push(None);
        }
        CancelRegistry { slots }
    }

    /// Registers `handle` as the cancellation handle of the download of
    /// `model_id`, giving back the handle it replaces. The handle of an
    /// unknown model is given back in `Err`.
    pub fn register(&mut self, model_id: &str, handle: T) -> (r: Result<Option<T>, T>)
        requires
            old(self).wf(),
        ensures
            final(self).wf(),
            final(self)@.len() == model_registry().len(),
            final(self)@ == registered(old(self)@, model_id@, handle),
            r is Err <==> is_unknown(model_id@),
            match r {
                Ok(prev) => prev == pending(old(self)@, model_id@),
                Err(h) => h == handle,
            },
    {
        match model_index(model_id) {
            Some(i) => {
                proof {
                    assert forall|j: int| is_first_index(model_id@, j) implies j == i by {
                        lemma_first_index_unique(model_id@, i as int, j);
                    }
                }
                let prev = self.slots.remove(i);
                self.slots.insert(i, Some(handle));
                assert(self.slots@ =~= old(self).slots@.update(i as int, Some(handle)));
                Ok(prev)
            },
            None => {
                assert(!exists|j: int| is_first_index(model_id@, j));
                Err(handle)
            },
        }
    }

    /// Takes out the cancellation handle registered for `model_id`, if any.
    pub fn remove(&mut self, model_id: &str) -> (r: Option<T>)
        requires
            old(self).wf(),
        ensures
            final(self).wf(),
            final(self)@.len() == model_registry().len(),
            final(self)@ == released(old(self)@, model_id@),
            r == pending(old(self)@, model_id@),
    {
        match model_index(model_id) {
            Some(i) => {
                proof {
                    assert forall|j: int| is_first_index(model_id@, j) implies j == i by {
                        lemma_first_index_unique(model_id@, i as int, j);
                    }
                }
                let prev = self.slots.remove(i);
                self.slots.insert(i, None);
                assert(self.slots@ =~= old(self).slots@.update(i as int, None));
                prev
            },
            None => None,
        }
    }
}

/// Takes out the cancellation handle of the download of `model_id`, so
/// that the caller can signal it; `None` when no download of it is running.
pub fn cancel_download<T>(registry: &mut CancelRegistry<T>, model_id: &str) -> (r: Option<T>)
    requires
        old(registry).wf(),
    ensures
        final(registry).wf(),
        final(registry)@.len() == model_registry().len(),
        final(registry)@ == released(old(registry)@, model_id@),
        r == pending(old(registry)@, model_id@),
{
    registry.remove(model_id)
}

/// A handle registered for a model is what cancelling that model's download
/// hands back, and afterwards nothing is pending for it.
pub proof fn lemma_cancel_returns_registered<T>(slots: Seq<Option<T>>, id: Seq<char>, handle: T)
    requires
        slots.len() == model_registry().len(),
        !is_unknown(id),
    ensures
        pending(registered(slots, id, handle), id) == Some(handle),
        pending(released(registered(slots, id, handle), id), id) is None,
{
    assert(exists|k: int| is_first_index(id, k)) by {
        if model_registry()[0].id == id {
            assert(is_first_index(id, 0));
        } else {
            assert(is_first_index(id, 1));
        }
    }
}

/// Cancelling leaves nothing pending for the model, and cancelling twice
/// has the same effect as cancelling once.
pub proof fn lemma_cancel_idempotent<T>(slots: Seq<Option<T>>, id: Seq<char>)
    requires
        slots.len() == model_registry().len(),
    ensures
        pending(released(slots, id), id) is None,
        released(released(slots, id), id) == released(slots, id),
{
    if exists|i: int| is_first_index(id, i) {
        assert(released(released(slots, id), id) =~= released(slots, id));
    }
}

/// Registering or cancelling for one model leaves the handles of the other
/// models as they were.
pub proof fn lemma_other_models_untouched<T>(
    slots: Seq<Option<T>>,
    id: Seq<char>,
    other: Seq<char>,
    handle: T,
)
    requires
        slots.len() == model_registry().len(),
        id != other,
    ensures
        pending(registered(slots, id, handle), other) == pending(slots, other),
        pending(released(slots, id), other) == pending(slots, other),
{
}

} // verus!
