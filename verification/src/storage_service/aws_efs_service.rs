//! Contents in files.
use vstd::prelude::*;
use crate::encoding::{
    extends, file_name, file_name_of, parent_of, parent_path, same_path, same_path_as,
};
use crate::error::{
    forbidden, general, general_error, invalid, outcome, ErrorReport, ErrorView, ServiceError,
};
use crate::storage_service::storage_service_trait::{
    ContentRepresentationInfo, FromStageInfo, FromStageView, RepresentationView, Settings,
    StageItemResult, StageItemView, StorageServiceTrait,
};
use crate::storage_service_factory::{adapter_type_of, get_adapter_type_from_id};
use crate::text::{cat3, cat5, cat9, starts_with};
use crate::types::{
    AdapterConfig, AdapterConfigView, AdapterType, AwsEfsConfig, CallContext, ContentHeadInfo,
    HeadInfoView,
};

verus! {

/// The service for contents in files.
#[derive(Debug, Default)]
pub struct AwsEfsService {}

/// What the file system says of a file; failures come as they are displayed.
#[derive(Debug)]
pub enum FileFacts {
    NoMetadata(String),
    NoKind(String),
    /// The size, and the type that the contents of the file suggest.
    Known { size: u64, kind: Option<String> },
}

/// What the file system says of a content.
pub open spec fn file_outcome(settings: &Settings, facts: FileFacts) -> Result<
    HeadInfoView,
    ErrorView,
> {
    match facts {
        FileFacts::NoMetadata(shown) => Err(
            ErrorView::FileSystemError("Failed to get file metadata: ["@ + shown@ + "]"@),
        ),
        FileFacts::NoKind(shown) => Err(
            ErrorView::FileSystemError("Failed to infer file kind: ["@ + shown@ + "]"@),
        ),
        FileFacts::Known { size, kind } => Ok(
            HeadInfoView {
                mime_type: match kind {
                    Some(mime_type) => mime_type@,
                    None => settings.unknown_mime_type@,
                },
                size,
                filename: None,
            },
        ),
    }
}

/// Reads what the file system says of a content.
pub fn read_file_facts(settings: &Settings, facts: FileFacts) -> (info: Result<
    ContentHeadInfo,
    ServiceError,
>)
    ensures
        outcome(info) == file_outcome(settings, facts),
{
    match facts {
        FileFacts::NoMetadata(shown) => Err(
            ServiceError::FileSystemError(
                cat3("Failed to get file metadata: [", shown.as_str(), "]"),
            ),
        ),
        FileFacts::NoKind(shown) => Err(
            ServiceError::FileSystemError(
                cat3("Failed to infer file kind: [", shown.as_str(), "]"),
            ),
        ),
        FileFacts::Known { size, kind } => {
            let mime_type = match kind {
                Some(mime_type) => mime_type,
                None => settings.unknown_mime_type.clone(),
            };
            Ok(ContentHeadInfo { mime_type, size, filename: None })
        },
    }
}

/// What is to be done next when a content is purged.
#[derive(Debug)]
pub enum PurgeStep {
    /// To look whether a directory is empty.
    Probe(String),
    /// To remove a directory.
    RemoveDir(String),
    Done(Result<(), ServiceError>),
}

pub enum PurgeStepView {
    Probe(Seq<char>),
    RemoveDir(Seq<char>),
    Done(Result<(), ErrorView>),
}

impl DeepView for PurgeStep {
    type V = PurgeStepView;

    open spec fn deep_view(&self) -> PurgeStepView {
        match self {
            PurgeStep::Probe(dir) => PurgeStepView::Probe(dir@),
            PurgeStep::RemoveDir(dir) => PurgeStepView::RemoveDir(dir@),
            PurgeStep::Done(result) => PurgeStepView::Done(
                match result {
                    Ok(_) => Ok(()),
                    Err(error) => Err(error.deep_view()),
                },
            ),
        }
    }
}

/// What was seen of a directory.
#[derive(Debug)]
pub enum DirProbe {
    Missing,
    Unreadable(String),
    Occupied,
    Empty,
}

/// The step after the file or the directory with a path has gone: to look at the directory
/// around it, unless there is none or it is the base path.
pub open spec fn step_above(settings: &Settings, path: Seq<char>) -> PurgeStepView {
    match parent_of(path) {
        Some(dir) => if same_path_as(dir, settings.aws_efs_base_path@) {
            PurgeStepView::Done(Ok(()))
        } else {
            PurgeStepView::Probe(dir)
        },
        None => PurgeStepView::Done(Ok(())),
    }
}

/// What came of removing the file of a content, as far as it was there.
pub open spec fn step_after_file(
    settings: &Settings,
    file_path: Seq<char>,
    removed: Result<(), String>,
) -> PurgeStepView {
    match removed {
        Ok(_) => step_above(settings, file_path),
        Err(shown) => PurgeStepView::Done(
            Err(
                ErrorView::FileSystemError(
                    "Failed to remove file: ["@ + file_path + "]. Reason: ["@ + shown@ + "]"@,
                ),
            ),
        ),
    }
}

/// The step after a directory was looked at: only an empty one is removed.
pub open spec fn step_after_probe(dir: Seq<char>, probe: DirProbe) -> PurgeStepView {
    match probe {
        DirProbe::Missing => PurgeStepView::Done(Ok(())),
        DirProbe::Occupied => PurgeStepView::Done(Ok(())),
        DirProbe::Unreadable(shown) => PurgeStepView::Done(
            Err(
                ErrorView::FileSystemError(
                    "Failed to read directory: ["@ + dir + "]. Reason: ["@ + shown@ + "]"@,
                ),
            ),
        ),
        DirProbe::Empty => PurgeStepView::RemoveDir(dir),
    }
}

/// The step after a directory was removed.
pub open spec fn step_after_removal(
    settings: &Settings,
    dir: Seq<char>,
    removed: Result<(), String>,
) -> PurgeStepView {
    match removed {
        Ok(_) => step_above(settings, dir),
        Err(shown) => PurgeStepView::Done(
            Err(
                ErrorView::FileSystemError(
                    "Failed to remove directory: ["@ + dir + "]. Reason: ["@ + shown@ + "]"@,
                ),
            ),
        ),
    }
}

impl AwsEfsService {
    /// The service.
    pub fn new() -> (service: Self)
        ensures
            service == (AwsEfsService {  }),
    {
        AwsEfsService {  }
    }

    /// The step after the file or the directory with a path has gone. A directory that is looked
    /// at then has a shorter path, so that there is an end to it.
    fn above(&self, settings: &Settings, path: &str) -> (step: PurgeStep)
        ensures
            step.deep_view() == step_above(settings, path@),
            step matches PurgeStep::Probe(dir) ==> extends(path@, dir@),
    {
        match parent_path(path) {
            Some(dir) => {
                if same_path(dir.as_str(), settings.aws_efs_base_path.as_str()) {
                    PurgeStep::Done(Ok(()))
                } else {
                    PurgeStep::Probe(dir)
                }
            },
            None => PurgeStep::Done(Ok(())),
        }
    }

    /// Takes in what came of removing the file of a content; a file that was not there counts as
    /// removed, and a failure comes as it is displayed.
    pub fn file_removed(
        &self,
        settings: &Settings,
        file_path: &str,
        removed: Result<(), String>,
    ) -> (step: PurgeStep)
        ensures
            step.deep_view() == step_after_file(settings, file_path@, removed),
            step matches PurgeStep::Probe(dir) ==> extends(file_path@, dir@),
    {
        match removed {
            Ok(_) => self.above(settings, file_path),
            Err(shown) => PurgeStep::Done(
                Err(
                    ServiceError::FileSystemError(
                        cat5(
                            "Failed to remove file: [",
                            file_path,
                            "]. Reason: [",
                            shown.as_str(),
                            "]",
                        ),
                    ),
                ),
            ),
        }
    }

    /// Takes in what was seen of a directory.
    pub fn dir_probed(&self, dir: &str, probe: DirProbe) -> (step: PurgeStep)
        ensures
            step.deep_view() == step_after_probe(dir@, probe),
    {
        match probe {
            DirProbe::Missing => PurgeStep::Done(Ok(())),
            DirProbe::Occupied => PurgeStep::Done(Ok(())),
            DirProbe::Unreadable(shown) => PurgeStep::Done(
                Err(
                    ServiceError::FileSystemError(
                        cat5(
                            "Failed to read directory: [",
                            dir,
                            "]. Reason: [",
                            shown.as_str(),
                            "]",
                        ),
                    ),
                ),
            ),
            DirProbe::Empty => PurgeStep::RemoveDir(dir.to_string()),
        }
    }

    /// Takes in what came of removing a directory; a failure comes as it is displayed.
    pub fn dir_removed(&self, settings: &Settings, dir: &str, removed: Result<(), String>) -> (step:
        PurgeStep)
        ensures
            step.deep_view() == step_after_removal(settings, dir@, removed),
            step matches PurgeStep::Probe(next) ==> extends(dir@, next@),
    {
        match removed {
            Ok(_) => self.above(settings, dir),
            Err(shown) => PurgeStep::Done(
                Err(
                    ServiceError::FileSystemError(
                        cat5(
                            "Failed to remove directory: [",
                            dir,
                            "]. Reason: [",
                            shown.as_str(),
                            "]",
                        ),
                    ),
                ),
            ),
        }
    }
}

/// A directory that is looked at, and so may be removed, is never the base path.
pub proof fn law_base_path_is_kept(
    settings: &Settings,
    path: Seq<char>,
    removed: Result<(), String>,
)
    ensures
        step_after_file(settings, path, removed) matches PurgeStepView::Probe(dir)
            ==> !same_path_as(dir, settings.aws_efs_base_path@),
        step_after_removal(settings, path, removed) matches PurgeStepView::Probe(dir)
            ==> !same_path_as(dir, settings.aws_efs_base_path@),
{
}

/// A directory is removed only where it was seen to be empty, and it is the one that was looked
/// at.
pub proof fn law_only_empty_directories_are_removed(dir: Seq<char>, probe: DirProbe)
    ensures
        step_after_probe(dir, probe) matches PurgeStepView::RemoveDir(removed) ==> probe is Empty
            && removed == dir,
{
}

/// A file system: the paths of its files and of its directories.
pub struct FileTree {
    pub files: Set<Seq<char>>,
    pub dirs: Set<Seq<char>>,
}

/// Something has the path.
pub open spec fn has_path(tree: FileTree, path: Seq<char>) -> bool {
    tree.files.contains(path) || tree.dirs.contains(path)
}

/// Every file and directory lies in a directory that is there and has a shorter path, unless it
/// lies in none.
pub open spec fn is_tree(tree: FileTree) -> bool {
    forall|path: Seq<char>|
        #![trigger parent_of(path)]
        has_path(tree, path) ==> match parent_of(path) {
            Some(dir) => tree.dirs.contains(dir) && dir.len() < path.len(),
            None => true,
        }
}

/// Something lies in the directory.
pub open spec fn is_occupied(tree: FileTree, dir: Seq<char>) -> bool {
    exists|path: Seq<char>| #[trigger] parent_of(path) == Some(dir) && has_path(tree, path)
}

/// What is seen of a directory.
pub open spec fn seen_of(tree: FileTree, dir: Seq<char>) -> DirProbe {
    if !tree.dirs.contains(dir) {
        DirProbe::Missing
    } else if is_occupied(tree, dir) {
        DirProbe::Occupied
    } else {
        DirProbe::Empty
    }
}

/// What is left of a file system, and what a purge comes to, when the steps from the given one on
/// are taken, at most as many as given.
pub open spec fn after_steps(
    settings: &Settings,
    tree: FileTree,
    step: PurgeStepView,
    turns: nat,
) -> (FileTree, Option<Result<(), ErrorView>>)
    decreases turns,
{
    match step {
        PurgeStepView::Done(result) => (tree, Some(result)),
        PurgeStepView::Probe(dir) => if turns == 0 {
            (tree, None)
        } else {
            after_steps(
                settings,
                tree,
                step_after_probe(dir, seen_of(tree, dir)),
                (turns - 1) as nat,
            )
        },
        PurgeStepView::RemoveDir(dir) => if turns == 0 {
            (tree, None)
        } else {
            after_steps(
                settings,
                FileTree { dirs: tree.dirs.remove(dir), ..tree },
                step_after_removal(settings, dir, Ok(())),
                (turns - 1) as nat,
            )
        },
    }
}

/// What is left of a file system, and what it comes to, when the file with a path is purged.
pub open spec fn after_purge(settings: &Settings, tree: FileTree, path: Seq<char>, turns: nat) -> (
    FileTree,
    Option<Result<(), ErrorView>>,
) {
    after_steps(
        settings,
        FileTree { files: tree.files.remove(path), ..tree },
        step_after_file(settings, path, Ok(())),
        turns,
    )
}

/// The directories around a path, from the inside out, up to the base path.
pub open spec fn leads_to_base(
    settings: &Settings,
    path: Seq<char>,
    around: Seq<Seq<char>>,
) -> bool {
    &&& around.len() > 0
    &&& parent_of(path) == Some(around[0])
    &&& forall|i: int|
        0 <= i < around.len() - 1 ==> parent_of(#[trigger] around[i]) == Some(around[i + 1])
    &&& forall|i: int|
        0 <= i < around.len() ==> (same_path_as(
            #[trigger] around[i],
            settings.aws_efs_base_path@,
        ) <==> i == around.len() - 1)
}

/// The file system without the file, and without the first directories around it.
pub open spec fn cleared(
    tree: FileTree,
    path: Seq<char>,
    around: Seq<Seq<char>>,
    count: int,
) -> FileTree {
    FileTree {
        files: tree.files.remove(path),
        dirs: tree.dirs.difference(around.take(count).to_set()),
    }
}

/// The file is gone, and so are the directories around it that it left empty, as many as given.
/// The next one stays, since something lies in it or it is the base path; nothing else changed.
pub open spec fn purged_up_to(
    tree: FileTree,
    after: FileTree,
    path: Seq<char>,
    around: Seq<Seq<char>>,
    count: int,
) -> bool {
    &&& 0 <= count < around.len()
    &&& after == cleared(tree, path, around, count)
    &&& forall|i: int| 0 <= i < count ==> !is_occupied(after, #[trigger] around[i])
    &&& after.dirs.contains(around[count])
    &&& count == around.len() - 1 || is_occupied(after, around[count])
}

proof fn lemma_around(
    settings: &Settings,
    tree: FileTree,
    path: Seq<char>,
    around: Seq<Seq<char>>,
    at: int,
)
    requires
        is_tree(tree),
        leads_to_base(settings, path, around),
        tree.dirs.contains(around[0]),
        0 <= at < around.len(),
    ensures
        tree.dirs.contains(around[at]),
        forall|i: int| 0 <= i < at ==> (#[trigger] around[i]).len() > around[at].len(),
    decreases at,
{
    if at > 0 {
        lemma_around(settings, tree, path, around, at - 1);
        assert(parent_of(around[at - 1]) == Some(around[at]));
        assert(has_path(tree, around[at - 1]));
    }
}

proof fn lemma_climb(
    settings: &Settings,
    tree: FileTree,
    path: Seq<char>,
    around: Seq<Seq<char>>,
    at: int,
    turns: nat,
) -> (count: int)
    requires
        is_tree(tree),
        leads_to_base(settings, path, around),
        tree.dirs.contains(around[0]),
        0 <= at < around.len(),
        forall|i: int|
            0 <= i < at ==> !is_occupied(cleared(tree, path, around, at), #[trigger] around[i]),
        turns >= 2 * (around.len() - at),
    ensures
        ({
            let step = if same_path_as(around[at], settings.aws_efs_base_path@) {
                PurgeStepView::Done(Ok(()))
            } else {
                PurgeStepView::Probe(around[at])
            };
            let (after, result) = after_steps(
                settings,
                cleared(tree, path, around, at),
                step,
                turns,
            );
            result == Some(Ok::<(), ErrorView>(())) && purged_up_to(
                tree,
                after,
                path,
                around,
                count,
            )
        }),
    decreases around.len() - at,
{
    let here = cleared(tree, path, around, at);
    lemma_around(settings, tree, path, around, at);
    assert(here.dirs.contains(around[at])) by {
        if around.take(at).to_set().contains(around[at]) {
            let i = around.take(at).index_of(around[at]);
            assert(around[i].len() > around[at].len());
        }
    }
    reveal_with_fuel(after_steps, 3);
    if same_path_as(around[at], settings.aws_efs_base_path@) {
        at
    } else if is_occupied(here, around[at]) {
        at
    } else {
        assert(at + 1 < around.len());
        assert(parent_of(around[at]) == Some(around[at + 1]));
        let next = cleared(tree, path, around, at + 1);
        assert(around.take(at + 1) =~= around.take(at).push(around[at]));
        around.take(at).lemma_push_to_set_commute(around[at]);
        assert(next.dirs =~= here.dirs.remove(around[at]));
        assert forall|i: int| 0 <= i < at + 1 implies !is_occupied(next, #[trigger] around[i]) by {
            if is_occupied(next, around[i]) {
                let entry = choose|entry: Seq<char>| #[trigger]
                    parent_of(entry) == Some(around[i]) && has_path(next, entry);
                assert(has_path(here, entry));
                assert(is_occupied(here, around[i]));
            }
        }
        let count = lemma_climb(settings, tree, path, around, at + 1, (turns - 2) as nat);
        count
    }
}

/// Purging a file under the base path succeeds, whether the file is there or not. The file is gone
/// then; of the directories around it those that are left empty are gone, from the inside out up to
/// the first in which something lies or the base path, which both stay; and nothing else changes.
/// Purging it again succeeds and changes nothing.
pub proof fn law_purge_clears_empty_directories(
    settings: &Settings,
    tree: FileTree,
    path: Seq<char>,
    around: Seq<Seq<char>>,
    turns: nat,
)
    requires
        is_tree(tree),
        !tree.dirs.contains(path),
        leads_to_base(settings, path, around),
        tree.dirs.contains(around[0]),
        turns >= 2 * around.len(),
    ensures
        after_purge(settings, tree, path, turns).1 == Some(Ok::<(), ErrorView>(())),
        exists|count: int| #[trigger]
            purged_up_to(tree, after_purge(settings, tree, path, turns).0, path, around, count),
        after_purge(settings, after_purge(settings, tree, path, turns).0, path, turns) == (
            after_purge(settings, tree, path, turns).0,
            Some(Ok::<(), ErrorView>(())),
        ),
{
    let first = FileTree { files: tree.files.remove(path), ..tree };
    assert(around.take(0).to_set() =~= Set::empty());
    assert(cleared(tree, path, around, 0).dirs =~= tree.dirs);
    assert(cleared(tree, path, around, 0) == first);
    let count = lemma_climb(settings, tree, path, around, 0, turns);
    let after = after_purge(settings, tree, path, turns).0;
    assert(purged_up_to(tree, after, path, around, count));
    let again = FileTree { files: after.files.remove(path), ..after };
    assert(again.files =~= after.files);
    assert(again == after);
    reveal_with_fuel(after_steps, 3);
    if count > 0 {
        assert(around.take(count)[0] == around[0]);
        assert(around.take(count).to_set().contains(around[0]));
        assert(!after.dirs.contains(around[0]));
    }
}

/// A content that is being staged: an address to fetch it is to be asked of the service of the
/// given kind, and what comes from there goes into the file.
#[derive(Debug)]
pub struct EfsStage {
    pub from_adapter_type: AdapterType,
    pub from_adapter_config: AdapterConfig,
    pub from: ContentRepresentationInfo,
    pub file_path: String,
}

pub struct EfsStageView {
    pub from_adapter_type: AdapterType,
    pub from_adapter_config: AdapterConfigView,
    pub from: RepresentationView,
    pub file_path: Seq<char>,
}

impl DeepView for EfsStage {
    type V = EfsStageView;

    open spec fn deep_view(&self) -> EfsStageView {
        EfsStageView {
            from_adapter_type: self.from_adapter_type,
            from_adapter_config: self.from_adapter_config.deep_view(),
            from: self.from.deep_view(),
            file_path: self.file_path@,
        }
    }
}

/// The file in which a content is stored.
pub open spec fn file_path_for(
    settings: &Settings,
    org_id: Seq<char>,
    content_id: Seq<char>,
    representation_type: Seq<char>,
    filename: Seq<char>,
) -> Seq<char> {
    settings.aws_efs_base_path@ + "/"@ + org_id + "/"@ + content_id + "/"@ + representation_type
        + "/"@ + filename
}

/// How staging to a file begins.
pub open spec fn stage_of(
    settings: &Settings,
    org_id: Seq<char>,
    from: FromStageView,
    to_representation_type: Option<Seq<char>>,
) -> Result<EfsStageView, ErrorView> {
    let info = from.content_representation_info;
    let to_type = match to_representation_type {
        Some(to_type) => to_type,
        None => info.representation_type,
    };
    match adapter_type_of(settings, from.adapter_id) {
        None => Err(general_error("Invalid adapter ID"@)),
        Some(from_adapter_type) => Ok(
            EfsStageView {
                from_adapter_type,
                from_adapter_config: from.adapter_config,
                from: RepresentationView { representation_type: to_type, ..info },
                file_path: file_path_for(
                    settings,
                    org_id,
                    info.content_id,
                    to_type,
                    info.filename,
                ),
            },
        ),
    }
}

/// What goes wrong when a content is written to a file; failures come as they are displayed.
#[derive(Debug)]
pub enum StageFault {
    CreateParent(String),
    CreateFile(String),
    Fetch(ErrorReport),
    Write(String),
    Flush(String),
}

/// The error for what went wrong.
pub open spec fn stage_fault_error(fault: StageFault) -> ErrorView {
    match fault {
        StageFault::CreateParent(shown) => ErrorView::FileSystemError(
            "Failed to create parent path of file: ["@ + shown@ + "]"@,
        ),
        StageFault::CreateFile(shown) => ErrorView::FileSystemError(
            "Failed to create file: ["@ + shown@ + "]"@,
        ),
        StageFault::Fetch(report) => ErrorView::ReqwestError(report.deep_view()),
        StageFault::Write(shown) => ErrorView::FileSystemError(
            "Failed to write content to file: ["@ + shown@ + "]"@,
        ),
        StageFault::Flush(shown) => ErrorView::FileSystemError(
            "Failed to flush buffer: ["@ + shown@ + "]"@,
        ),
    }
}

/// The staged content, once its file has been written and looked at.
pub open spec fn staged_item(
    stage: EfsStageView,
    infos: Result<Seq<HeadInfoView>, ErrorView>,
) -> Result<StageItemView, ErrorView> {
    match infos {
        Err(error) => Err(error),
        Ok(infos) => if infos.len() == 0 {
            Err(
                ErrorView::FileSystemError(
                    "Failed to get head info for file: ["@ + stage.file_path + "]"@,
                ),
            )
        } else {
            Ok(
                StageItemView {
                    uri: stage.file_path,
                    stripped_uri: stage.file_path,
                    representation_type: stage.from.representation_type,
                    filename: stage.from.filename,
                    head_info: infos[0],
                },
            )
        },
    }
}

impl EfsStage {
    /// The directory of the file, which is to be there before the file is.
    pub fn parent(&self) -> (parent: Result<String, ServiceError>)
        ensures
            outcome(parent) == (match parent_of(self.file_path@) {
                Some(dir) => Ok::<Seq<char>, ErrorView>(dir),
                None => Err(
                    ErrorView::FileSystemError(
                        "Failed to get parent path of file: ["@ + self.file_path@ + "]"@,
                    ),
                ),
            }),
    {
        match parent_path(self.file_path.as_str()) {
            Some(dir) => Ok(dir),
            None => Err(
                ServiceError::FileSystemError(
                    cat3("Failed to get parent path of file: [", self.file_path.as_str(), "]"),
                ),
            ),
        }
    }

    /// The error for what went wrong.
    pub fn fail(fault: StageFault) -> (error: ServiceError)
        ensures
            error.deep_view() == stage_fault_error(fault),
    {
        match fault {
            StageFault::CreateParent(shown) => ServiceError::FileSystemError(
                cat3("Failed to create parent path of file: [", shown.as_str(), "]"),
            ),
            StageFault::CreateFile(shown) => ServiceError::FileSystemError(
                cat3("Failed to create file: [", shown.as_str(), "]"),
            ),
            StageFault::Fetch(report) => ServiceError::ReqwestError(report),
            StageFault::Write(shown) => ServiceError::FileSystemError(
                cat3("Failed to write content to file: [", shown.as_str(), "]"),
            ),
            StageFault::Flush(shown) => ServiceError::FileSystemError(
                cat3("Failed to flush buffer: [", shown.as_str(), "]"),
            ),
        }
    }

    /// The staged content, once its file has been written and looked at.
    pub fn finish(self, infos: Result<Vec<ContentHeadInfo>, ServiceError>) -> (item: Result<
        StageItemResult,
        ServiceError,
    >)
        ensures
            outcome(item) == staged_item(self.deep_view(), outcome(infos)),
    {
        let mut infos = match infos {
            Ok(infos) => infos,
            Err(error) => {
                return Err(error);
            },
        };
        if infos.len() == 0 {
            return Err(
                ServiceError::FileSystemError(
                    cat3("Failed to get head info for file: [", self.file_path.as_str(), "]"),
                ),
            );
        }
        let head_info = infos.remove(0);
        let stripped_uri = self.file_path.clone();
        Ok(
            StageItemResult {
                uri: self.file_path,
                stripped_uri,
                representation_type: self.from.representation_type,
                filename: self.from.filename,
                head_info,
            },
        )
    }
}

/// What an operation of the file service has left to do.
#[derive(Debug)]
pub enum EfsTask {
    /// To look at these files, one after the other, up to the first failure.
    HeadInfos(Vec<String>),
    /// To remove this file where it is there, and then the directories that are left empty.
    Purge(String),
    Stage(EfsStage),
}

pub enum EfsTaskView {
    HeadInfos(Seq<Seq<char>>),
    Purge(Seq<char>),
    Stage(EfsStageView),
}

impl DeepView for EfsTask {
    type V = EfsTaskView;

    open spec fn deep_view(&self) -> EfsTaskView {
        match self {
            EfsTask::HeadInfos(paths) => EfsTaskView::HeadInfos(paths.deep_view()),
            EfsTask::Purge(path) => EfsTaskView::Purge(path@),
            EfsTask::Stage(stage) => EfsTaskView::Stage(stage.deep_view()),
        }
    }
}

impl StorageServiceTrait for AwsEfsService {
    type Task = EfsTask;

    open spec fn tells_expiration() -> bool {
        false
    }

    fn retrieve_head_infos(
        &self,
        settings: &Settings,
        content_uris: &Vec<String>,
        adapter_configs: &Vec<AdapterConfig>,
        now_secs: u64,
    ) -> (task: Result<EfsTask, ServiceError>)
        ensures
            outcome(task) == Ok::<EfsTaskView, ErrorView>(
                EfsTaskView::HeadInfos(content_uris.deep_view()),
            ),
    {
        let paths = content_uris.clone();
        assert(paths.deep_view() =~= content_uris.deep_view());
        Ok(EfsTask::HeadInfos(paths))
    }

    fn purge(&self, settings: &Settings, content_uri: &str, adapter_config: AdapterConfig) -> (task:
        Result<EfsTask, ServiceError>)
        ensures
            outcome(task) == Ok::<EfsTaskView, ErrorView>(EfsTaskView::Purge(content_uri@)),
    {
        Ok(EfsTask::Purge(content_uri.to_string()))
    }

    fn stage(
        &self,
        settings: &Settings,
        ctx: &CallContext,
        adapter_config: AdapterConfig,
        from_stage_info: FromStageInfo,
        to_alias: Option<String>,
        to_representation_type: Option<String>,
    ) -> (task: Result<EfsTask, ServiceError>)
        ensures
            outcome(task) == (match stage_of(
                settings,
                ctx.org_id@,
                from_stage_info.deep_view(),
                to_representation_type.deep_view(),
            ) {
                Ok(stage) => Ok::<EfsTaskView, ErrorView>(EfsTaskView::Stage(stage)),
                Err(error) => Err(error),
            }),
    {
        let info = from_stage_info.content_representation_info;
        let representation_type = match to_representation_type {
            Some(representation_type) => representation_type,
            None => info.representation_type,
        };
        let from_adapter_type = match get_adapter_type_from_id(
            settings,
            from_stage_info.adapter_id.as_str(),
        ) {
            Some(from_adapter_type) => from_adapter_type,
            None => {
                return general("Invalid adapter ID");
            },
        };
        let file_path = cat9(
            settings.aws_efs_base_path.as_str(),
            "/",
            ctx.org_id.as_str(),
            "/",
            info.content_id.as_str(),
            "/",
            representation_type.as_str(),
            "/",
            info.filename.as_str(),
        );
        Ok(
            EfsTask::Stage(
                EfsStage {
                    from_adapter_type,
                    from_adapter_config: from_stage_info.adapter_config,
                    from: ContentRepresentationInfo {
                        content_id: info.content_id,
                        representation_type,
                        uri: info.uri,
                        filename: info.filename,
                        mime_type: info.mime_type,
                        metadata: info.metadata,
                    },
                    file_path,
                },
            ),
        )
    }

    fn reconstruct_uri(
        &self,
        settings: &Settings,
        stripped_content_uri: &str,
        adapter_config: &AdapterConfig,
        content_id: Option<String>,
        representation_type: Option<String>,
        alias: Option<String>,
        short_link_slug: Option<String>,
        is_dynamic: bool,
    ) -> (uri: Result<String, ServiceError>)
        ensures
            outcome(uri) == Ok::<Seq<char>, ErrorView>(stripped_content_uri@),
    {
        Ok(stripped_content_uri.to_string())
    }

    /// There is only one file system.
    fn update_adapter(
        &self,
        old_config: AdapterConfig,
        new_config: AdapterConfig,
        has_linked_alias: bool,
    ) -> (task: Result<EfsTask, ServiceError>)
        ensures
            outcome(task) == Err::<EfsTaskView, ErrorView>(
                ErrorView::InvalidRequestParameters("AWS EFS adapter updating is not supported"@),
            ),
    {
        invalid("AWS EFS adapter updating is not supported")
    }

    fn purge_by_url(&self, url: &str) -> (task: Result<EfsTask, ServiceError>)
        ensures
            forbidden(task),
    {
        Err(ServiceError::ForbiddenError)
    }

    fn is_valid_uri(&self, settings: &Settings, uri: &str) -> (valid: bool)
        ensures
            valid == settings.aws_efs_base_path@.is_prefix_of(uri@),
    {
        starts_with(uri, settings.aws_efs_base_path.as_str())
    }

    fn get_filename_from_uri(&self, uri: &str) -> (filename: Option<String>)
        ensures
            filename.deep_view() == file_name_of(uri@),
    {
        file_name(uri)
    }

    fn get_default_config(&self, settings: &Settings) -> (config: AdapterConfig)
        ensures
            config.deep_view() == AdapterConfigView::AwsEfs,
    {
        AdapterConfig::AwsEfs(AwsEfsConfig {  })
    }
}

/// A staged content lies under the base path, so that its URI is valid.
pub proof fn law_staged_files_have_valid_uris(
    settings: &Settings,
    org_id: Seq<char>,
    from: FromStageView,
    to_representation_type: Option<Seq<char>>,
)
    ensures
        stage_of(settings, org_id, from, to_representation_type) matches Ok(stage)
            ==> settings.aws_efs_base_path@.is_prefix_of(stage.file_path),
{
    if let Ok(stage) = stage_of(settings, org_id, from, to_representation_type) {
        let base = settings.aws_efs_base_path@;
        assert(stage.file_path.subrange(0, base.len() as int) =~= base);
    }
}

} // verus!
