//! The session manager. It keeps one working directory in step with one
//! remote assistant and at most one conversation.
//!
//! The manager decides; the caller reads the disk and talks to the remote
//! store. Each operation is therefore a step, or a few: the caller hands in
//! what it found, the manager says what to do next, and the caller reports
//! back what came of it. What the manager publishes on its event bus is part
//! of each step's contract.

use crate::bundle::bundle_text;
use crate::bundle::bundle_to_file;
use crate::bundle::file_views;
use crate::bundle::SourceFile;
use crate::config::config_ok;
use crate::config::is_config_fault;
use crate::config::validate;
use crate::config::Config;
use crate::config::ConfigView;
use crate::error::Error;
use crate::event::Event;
use crate::event::EventBus;
use crate::gate::artifact_path;
use crate::gate::bundle_file_path;
use crate::gate::cleanup_stale;
use crate::gate::deletion_is_safe;
use crate::gate::is_private;
use crate::gate::is_stale;
use crate::gate::should_reupload;
use crate::gate::stale_paths;
use crate::gate::texts;
use tokio::sync::broadcast::Receiver;
use vstd::prelude::*;
use vstd::string::*;

verus! {

/// How far a session has come.
#[derive(Clone, Copy, Debug, PartialEq, Eq, Structural)]
pub enum Phase {
    /// Nothing is known yet, or the descriptor was refused.
    Uninitialized,
    /// The descriptor is sound; the assistant is not known.
    Configured,
    /// The assistant is known; there is no active conversation.
    AssistantReady,
    /// There is an active conversation.
    ConversationReady,
}

/// The phase that opening a session reaches with this descriptor and this
/// answer of the remote store.
pub open spec fn phase_reached(config: ConfigView, assistant: Option<String>) -> Phase {
    if !config_ok(config) {
        Phase::Uninitialized
    } else if assistant is None {
        Phase::Configured
    } else {
        Phase::AssistantReady
    }
}

/// A conversation: the identifier of a remote thread.
#[derive(Clone, Debug, PartialEq, Eq)]
pub struct Conv {
    thread_id: String,
}

impl View for Conv {
    type V = Seq<char>;

    closed spec fn view(&self) -> Seq<char> {
        self.thread_id@
    }
}

impl Conv {
    /// The conversation on the thread `thread_id`.
    pub fn new(thread_id: String) -> (conv: Conv)
        ensures
            conv@ == thread_id@,
    {
        Conv { thread_id }
    }

    /// The identifier of the thread.
    pub fn thread_id(&self) -> (id: &str)
        ensures
            id@ == self@,
    {
        self.thread_id.as_str()
    }
}

/// What to do about the assistant when a session is opened.
#[derive(Clone, Debug, PartialEq, Eq)]
pub enum AssistantPlan {
    /// Use the assistant that the remote store already has.
    Reuse(String),
    /// Have the remote store create a new one.
    Create,
}

impl AssistantPlan {
    /// The assistant that the session ends up with, where `fresh` is what the
    /// remote store would create.
    pub open spec fn identity(self, fresh: Seq<char>) -> Seq<char> {
        match self {
            AssistantPlan::Reuse(id) => id@,
            AssistantPlan::Create => fresh,
        }
    }
}

/// `plan` is the plan for an assistant that was looked up with the answer
/// `found`: an existing assistant is reused unless `recreate` is set.
pub open spec fn plans_assistant(found: Option<String>, recreate: bool, plan: AssistantPlan) -> bool {
    match plan {
        AssistantPlan::Reuse(id) => !recreate && found == Some(id),
        AssistantPlan::Create => recreate || found is None,
    }
}

/// Decides whether the assistant that the remote store found under the
/// session's name is used, or a new one is created.
pub fn load_or_create_assistant(found: Option<String>, recreate: bool) -> (plan: AssistantPlan)
    ensures
        plans_assistant(found, recreate, plan),
{
    match found {
        Some(id) => if recreate {
            AssistantPlan::Create
        } else {
            AssistantPlan::Reuse(id)
        },
        None => AssistantPlan::Create,
    }
}

/// What comes after the stored conversation record was looked at.
#[derive(Clone, Debug, PartialEq, Eq)]
pub enum ConvNext {
    /// Ask the remote store whether the thread of this conversation still
    /// exists, and report the answer to [`Scribe::conv_validated`].
    Validate(Conv),
    /// Have the remote store create a thread, and report it to
    /// [`Scribe::conv_created`].
    Create,
}

/// The first step of loading or creating a conversation.
#[derive(Clone, Debug, PartialEq, Eq)]
pub struct ConvPlan {
    /// Delete the stored conversation record before anything else.
    pub delete_local: bool,
    pub next: ConvNext,
}

/// `plan` is the plan for a conversation whose record on disk was found as
/// `file_exists` and read as `stored`. With `recreate` an existing record is
/// deleted and a thread is created. Without it a readable record is validated
/// and nothing is deleted; without a readable record a thread is created.
pub open spec fn plans_conversation(
    recreate: bool,
    file_exists: bool,
    stored: Option<Conv>,
    plan: ConvPlan,
) -> bool {
    &&& plan.delete_local == (recreate && file_exists)
    &&& match plan.next {
        ConvNext::Validate(conv) => !recreate && stored == Some(conv),
        ConvNext::Create => recreate || stored is None,
    }
}

/// What the caller found or did about a file that is uploaded as a whole.
#[derive(Clone, Debug, PartialEq, Eq)]
pub enum UploadOutcome {
    /// The configured file does not exist; nothing was done.
    Missing,
    /// The file was read and the remote store took it.
    Uploaded,
    /// Reading or uploading failed.
    Failed(Error),
}

/// What the caller found on disk for the bundle in turn.
#[derive(Debug)]
pub struct BundleProbe {
    /// The bundle's source directory exists.
    pub src_dir_exists: bool,
    /// The files that the bundle's globs match there, in the order in which
    /// they are to stand in the artifact.
    pub files: Vec<SourceFile>,
    /// An artifact of the bundle's name exists already.
    pub artifact_exists: bool,
}

/// A bundle artifact that is ready to be written and uploaded.
#[derive(Debug)]
pub struct BundleArtifact {
    pub bundle_name: String,
    /// Where the artifact is written, under the session directory.
    pub path: String,
    /// The content of the artifact.
    pub text: String,
    /// Whether the remote store is to take the artifact even if it has one
    /// of that name.
    pub force_reupload: bool,
}

/// The progress of one upload cycle through the configured bundles.
#[derive(Debug)]
pub struct UploadCycle {
    recreate: bool,
    next: usize,
    uploaded: u32,
}

impl UploadCycle {
    #[verifier::type_invariant]
    spec fn sound(&self) -> bool {
        self.uploaded <= self.next <= u32::MAX
    }

    /// Whether the cycle uploads every bundle again.
    pub closed spec fn recreates(&self) -> bool {
        self.recreate
    }

    /// The position of the bundle in turn.
    pub closed spec fn spec_position(&self) -> int {
        self.next as int
    }

    /// The number of bundles uploaded so far.
    pub closed spec fn spec_uploaded(&self) -> int {
        self.uploaded as int
    }

    /// The position of the bundle in turn.
    pub fn position(&self) -> (at: usize)
        ensures
            at == self.spec_position(),
    {
        self.next
    }

    /// The number of bundles uploaded so far. No more bundles were uploaded
    /// than were looked at.
    pub fn uploaded(&self) -> (count: u32)
        ensures
            count == self.spec_uploaded(),
            count <= self.spec_position(),
    {
        proof {
            use_type_invariant(self);
        }
        self.uploaded
    }
}

/// An upload that the caller is carrying out for the bundle in turn.
#[derive(Debug)]
pub struct PendingUpload {
    recreate: bool,
    index: usize,
    uploaded: u32,
    bundle_name: String,
}

impl PendingUpload {
    #[verifier::type_invariant]
    spec fn sound(&self) -> bool {
        self.uploaded <= self.index < u32::MAX
    }

    /// Whether the cycle uploads every bundle again.
    pub closed spec fn recreates(&self) -> bool {
        self.recreate
    }

    /// The position of the bundle that is being uploaded.
    pub closed spec fn position(&self) -> int {
        self.index as int
    }

    /// The number of bundles uploaded before this one.
    pub closed spec fn uploaded_before(&self) -> int {
        self.uploaded as int
    }

    /// The name of the bundle that is being uploaded.
    pub closed spec fn bundle(&self) -> Seq<char> {
        self.bundle_name@
    }
}

/// What to do with the bundle in turn.
#[derive(Debug)]
pub enum BundleStep {
    /// All bundles were looked at; the number is the count of uploads.
    Done(u32),
    /// The bundle has no source directory or no matching file. It is passed
    /// over, which is no error; the cycle has moved on.
    Skip(UploadCycle),
    /// Write the artifact, hand it to the remote store, and report to
    /// [`Scribe::bundle_uploaded`] whether the store took it.
    Upload(BundleArtifact, PendingUpload),
}

/// What is sent to the remote store for one turn of a chat.
#[derive(Clone, Debug, PartialEq, Eq)]
pub struct ChatRequest {
    pub assistant: String,
    pub thread: String,
    pub text: String,
}

/// A descriptor that was checked and found sound.
struct Checked {
    config: Config,
}

impl Checked {
    #[verifier::type_invariant]
    spec fn sound(&self) -> bool {
        config_ok(self.config@)
    }
}

/// A session: a directory, its descriptor, the remote assistant and the
/// event bus, and the active conversation once there is one.
pub struct Scribe {
    dir: String,
    asst_id: String,
    checked: Checked,
    event_bus: EventBus,
    conv: Option<String>,
}

impl Scribe {

    /// The session directory.
    pub closed spec fn directory(&self) -> Seq<char> {
        self.dir@
    }

    /// The identifier of the remote assistant.
    pub closed spec fn assistant(&self) -> Seq<char> {
        self.asst_id@
    }

    /// The descriptor that the session was opened with.
    pub closed spec fn descriptor(&self) -> ConfigView {
        self.checked.config@
    }

    /// The events that the session has published, oldest first.
    pub closed spec fn published(&self) -> Seq<Event> {
        self.event_bus.published()
    }

    /// The thread of the active conversation, if there is one.
    pub closed spec fn conversation(&self) -> Option<Seq<char>> {
        match self.conv {
            Some(thread) => Some(thread@),
            None => None,
        }
    }

    /// The phase of the session.
    pub open spec fn spec_phase(&self) -> Phase {
        if self.conversation() is Some {
            Phase::ConversationReady
        } else {
            Phase::AssistantReady
        }
    }

    /// Directory, assistant and descriptor are those of `other`.
    pub open spec fn same_setup(&self, other: &Scribe) -> bool {
        &&& self.directory() == other.directory()
        &&& self.assistant() == other.assistant()
        &&& self.descriptor() == other.descriptor()
    }

    /// `other` but for the events published since.
    pub open spec fn same_but_events(&self, other: &Scribe) -> bool {
        self.same_setup(other) && self.conversation() == other.conversation()
    }

    /// The artifact path of the bundle at position `i`.
    pub open spec fn bundle_path(&self, i: int) -> Seq<char> {
        artifact_path(
            self.descriptor().name,
            self.descriptor().file_bundles[i].bundle_name,
            self.assistant(),
            self.descriptor().file_bundles[i].dst_ext,
        )
    }

    /// Opens a session on `dir` with the descriptor read there and the
    /// assistant that the remote store resolved or created (`None` if it
    /// could do neither). A session comes out exactly when the descriptor is
    /// sound and the assistant is known; it has no conversation yet and has
    /// published nothing on a bus of its own. Otherwise nothing comes out but
    /// the error: that of the descriptor first, `Setup` for the assistant.
    pub fn init_from_dir(
        dir: &str,
        config: Config,
        assistant: Option<String>,
        event_bus: Option<EventBus>,
    ) -> (opened: Result<Scribe, Error>)
        ensures
            opened is Ok <==> phase_reached(config@, assistant) == Phase::AssistantReady,
            opened matches Ok(scribe) ==> {
                &&& scribe.directory() == dir@
                &&& scribe.descriptor() == config@
                &&& scribe.assistant() == assistant->Some_0@
                &&& scribe.conversation() is None
                &&& scribe.published() == match event_bus {
                    Some(bus) => bus.published(),
                    None => Seq::<Event>::empty(),
                }
            },
            opened matches Err(e) ==> match phase_reached(config@, assistant) {
                Phase::Uninitialized => is_config_fault(config@, e),
                _ => e == Error::Setup,
            },
    {
        match validate(&config) {
            Err(e) => {
                return Err(e);
            },
            Ok(_) => {},
        }
        let asst_id = match assistant {
            Some(id) => id,
            None => {
                return Err(Error::Setup);
            },
        };
        let event_bus = match event_bus {
            Some(bus) => bus,
            None => EventBus::new(),
        };
        Ok(Scribe { dir: String::from_str(dir), asst_id, checked: Checked { config }, event_bus, conv: None })
    }

    /// The name of the session.
    pub fn name(&self) -> (name: &str)
        ensures
            name@ == self.descriptor().name,
    {
        self.checked.config.name.as_str()
    }

    /// The session directory.
    pub fn dir(&self) -> (dir: &str)
        ensures
            dir@ == self.directory(),
    {
        self.dir.as_str()
    }

    /// The identifier of the remote assistant.
    pub fn asst_id(&self) -> (id: &str)
        ensures
            id@ == self.assistant(),
    {
        self.asst_id.as_str()
    }

    /// The descriptor that the session was opened with. It is sound.
    pub fn config(&self) -> (config: &Config)
        ensures
            config@ == self.descriptor(),
            config_ok(config@),
    {
        proof {
            use_type_invariant(&self.checked);
        }
        &self.checked.config
    }

    /// The phase of the session.
    #[verifier::when_used_as_spec(spec_phase)]
    pub fn phase(&self) -> (phase: Phase)
        ensures
            phase == self.spec_phase(),
    {
        if self.conv.is_some() {
            Phase::ConversationReady
        } else {
            Phase::AssistantReady
        }
    }

    /// A new receiver on the session's event bus. It sees what is published
    /// from now on.
    pub fn subscribe(&self) -> (rx: Result<Receiver<Event>, Error>)
        ensures
            rx is Ok,
    {
        self.event_bus.subscribe()
    }

    /// Publishes one event. That nobody is subscribed is not a failure of
    /// the session.
    fn publish(&mut self, event: Event)
        ensures
            final(self).published() == old(self).published().push(event),
            final(self).same_but_events(old(self)),
    {
        let _unheard = self.event_bus.send(event);
    }

    /// Announces a failure that the caller met while reading the disk or
    /// talking to the remote store.
    pub fn report_failure(&mut self, error: &Error)
        ensures
            final(self).published() == old(self).published().push(Event::Failure(error.kind())),
            final(self).same_but_events(old(self)),
    {
        self.publish(Event::Failure(error.kind()));
    }

    /// Records what came of uploading the instructions file. A missing file
    /// is passed over: `false`, and nothing is published. After an upload
    /// `InstructionsUploaded` is published and the result is `true`. A
    /// failure is announced and handed back unchanged.
    pub fn upload_instructions(&mut self, outcome: UploadOutcome) -> (done: Result<bool, Error>)
        ensures
            final(self).same_but_events(old(self)),
            match outcome {
                UploadOutcome::Missing => done == Ok::<bool, Error>(false) && final(self).published() == old(self).published(),
                UploadOutcome::Uploaded => done == Ok::<bool, Error>(true) && final(self).published() == old(self).published().push(Event::InstructionsUploaded),
                UploadOutcome::Failed(e) => done == Err::<bool, Error>(e) && final(self).published() == old(self).published().push(Event::Failure(e.kind())),
            },
    {
        match outcome {
            UploadOutcome::Missing => Ok(false),
            UploadOutcome::Uploaded => {
                self.publish(Event::InstructionsUploaded);
                Ok(true)
            },
            UploadOutcome::Failed(e) => {
                self.publish(Event::Failure(e.kind()));
                Err(e)
            },
        }
    }

    /// Records what came of uploading the embeddings file, as
    /// [`Scribe::upload_instructions`] does for the instructions; the event
    /// after an upload is `EmbeddingsUploaded`.
    pub fn upload_embeddings(&mut self, outcome: UploadOutcome) -> (done: Result<bool, Error>)
        ensures
            final(self).same_but_events(old(self)),
            match outcome {
                UploadOutcome::Missing => done == Ok::<bool, Error>(false) && final(self).published() == old(self).published(),
                UploadOutcome::Uploaded => done == Ok::<bool, Error>(true) && final(self).published() == old(self).published().push(Event::EmbeddingsUploaded),
                UploadOutcome::Failed(e) => done == Err::<bool, Error>(e) && final(self).published() == old(self).published().push(Event::Failure(e.kind())),
            },
    {
        match outcome {
            UploadOutcome::Missing => Ok(false),
            UploadOutcome::Uploaded => {
                self.publish(Event::EmbeddingsUploaded);
                Ok(true)
            },
            UploadOutcome::Failed(e) => {
                self.publish(Event::Failure(e.kind()));
                Err(e)
            },
        }
    }

    /// The first step of loading or creating the conversation: what to do
    /// with the record on disk, found as `file_exists` and read as `stored`
    /// (`None` where there is none or it cannot be read).
    pub fn load_or_create_conv(&self, recreate: bool, file_exists: bool, stored: Option<Conv>) -> (plan:
        ConvPlan)
        ensures
            plans_conversation(recreate, file_exists, stored, plan),
    {
        let delete_local = recreate && file_exists;
        let next = match stored {
            Some(conv) => if recreate {
                ConvNext::Create
            } else {
                ConvNext::Validate(conv)
            },
            None => ConvNext::Create,
        };
        ConvPlan { delete_local, next }
    }

    /// Takes the remote store's answer on the stored conversation. If the
    /// thread was found, the conversation becomes the active one,
    /// `ConversationLoaded` is published and the conversation is returned.
    /// If not, the error names the thread, the failure is announced, and the
    /// session is as before: no other conversation is made in its place.
    pub fn conv_validated(&mut self, conv: Conv, thread_found: bool) -> (loaded: Result<Conv, Error>)
        ensures
            final(self).same_setup(old(self)),
            thread_found ==> {
                &&& loaded == Ok::<Conv, Error>(conv)
                &&& final(self).conversation() == Some(conv@)
                &&& final(self).published() == old(self).published().push(
                    Event::ConversationLoaded,
                )
            },
            !thread_found ==> {
                &&& loaded matches Err(Error::ConversationInvalid(thread))
                &&& thread@ == conv@
                &&& final(self).conversation() == old(self).conversation()
                &&& final(self).published() == old(self).published().push(
                    Event::Failure(crate::event::FailureKind::ConversationInvalid),
                )
            },
    {
        if thread_found {
            self.conv = Some(conv.thread_id.clone());
            self.publish(Event::ConversationLoaded);
            Ok(conv)
        } else {
            let error = Error::ConversationInvalid(conv.thread_id);
            self.publish(Event::Failure(error.kind()));
            Err(error)
        }
    }

    /// Takes the thread that the remote store created. The conversation on
    /// it becomes the active one, `ConversationCreated` is published, and the
    /// conversation is returned for the caller to store.
    pub fn conv_created(&mut self, thread_id: String) -> (created: Conv)
        ensures
            created@ == thread_id@,
            final(self).same_setup(old(self)),
            final(self).conversation() == Some(thread_id@),
            final(self).published() == old(self).published().push(Event::ConversationCreated),
    {
        self.conv = Some(thread_id.clone());
        self.publish(Event::ConversationCreated);
        Conv { thread_id }
    }

    /// The request for one turn of a chat on `conv`, or `None` if `conv` is
    /// not the session's active conversation. The caller sends it to the
    /// remote store and hands the answer on as it came.
    pub fn chat(&self, conv: &Conv, msg: &str) -> (request: Option<ChatRequest>)
        ensures
            request is Some <==> self.conversation() == Some(conv@),
            request matches Some(r) ==> r.assistant@ == self.assistant() && r.thread@ == conv@
                && r.text@ == msg@,
    {
        match &self.conv {
            Some(active) => {
                if *active == conv.thread_id {
                    Some(
                        ChatRequest {
                            assistant: self.asst_id.clone(),
                            thread: conv.thread_id.clone(),
                            text: String::from_str(msg),
                        },
                    )
                } else {
                    None
                }
            },
            None => None,
        }
    }

    /// Starts an upload cycle. `candidates` are the paths found in the
    /// artifact directory. The stale ones among them are returned for
    /// deletion, with a cycle that stands at the first bundle and has
    /// uploaded nothing. If a stale path lies outside the session's private
    /// directory, the cycle does not start and nothing may be deleted: the
    /// failure is announced and returned.
    pub fn upload_files(&mut self, recreate: bool, candidates: &Vec<String>) -> (started: Result<
        (Vec<String>, UploadCycle),
        Error,
    >)
        ensures
            final(self).same_but_events(old(self)),
            started is Ok <==> deletion_is_safe(texts(candidates@), old(self).assistant()),
            started matches Ok(begun) ==> {
                &&& texts(begun.0@) == stale_paths(texts(candidates@), old(self).assistant())
                &&& begun.1.recreates() == recreate
                &&& begun.1.spec_position() == 0
                &&& begun.1.spec_uploaded() == 0
                &&& final(self).published() == old(self).published()
            },
            started matches Err(e) ==> {
                &&& e matches Error::UnsafeDeleteAttempted(path)
                &&& exists|i: int|
                    0 <= i < candidates@.len() && candidates@[i] == path && is_stale(
                        path@,
                        old(self).assistant(),
                    ) && !is_private(path@)
                &&& final(self).published() == old(self).published().push(
                    Event::Failure(crate::event::FailureKind::UnsafeDelete),
                )
            },
    {
        match cleanup_stale(candidates, self.asst_id.as_str()) {
            Ok(doomed) => Ok((doomed, UploadCycle { recreate, next: 0, uploaded: 0 })),
            Err(e) => {
                self.publish(Event::Failure(e.kind()));
                Err(e)
            },
        }
    }

    /// The position of the bundle in turn and the path of its artifact under
    /// the session directory, or `None` when every bundle was looked at.
    pub fn next_bundle(&self, cycle: &UploadCycle) -> (turn: Option<(usize, String)>)
        ensures
            turn is Some <==> cycle.spec_position() < self.descriptor().file_bundles.len(),
            turn matches Some(t) ==> t.0 == cycle.spec_position() && t.1@ == self.bundle_path(
                t.0 as int,
            ),
    {
        if cycle.next < self.checked.config.file_bundles.len() {
            let bundle = &self.checked.config.file_bundles[cycle.next];
            assert(self.checked.config@.file_bundles[cycle.next as int] == bundle@);
            let path = bundle_file_path(
                self.checked.config.name.as_str(),
                bundle.bundle_name.as_str(),
                self.asst_id.as_str(),
                bundle.dst_ext.as_str(),
            );
            Some((cycle.next, path))
        } else {
            None
        }
    }

    /// Decides what happens to the bundle in turn, given what the caller
    /// found on disk. After the last bundle the cycle is done and gives its
    /// count. A bundle without source directory or without matching files is
    /// passed over: the cycle moves on and its count stays. Otherwise the
    /// artifact is built from the files in their order, under the bundle's
    /// path, and is to be uploaded by force exactly when the cycle recreates
    /// or no artifact existed.
    pub fn plan_bundle(&self, cycle: UploadCycle, probe: &BundleProbe) -> (step: BundleStep)
        ensures
            cycle.spec_position() >= self.descriptor().file_bundles.len() ==> step
                == BundleStep::Done(cycle.spec_uploaded() as u32),
            cycle.spec_position() < self.descriptor().file_bundles.len() && (!probe.src_dir_exists
                || probe.files@.len() == 0) ==> {
                &&& step matches BundleStep::Skip(moved)
                &&& moved.recreates() == cycle.recreates()
                &&& moved.spec_position() == cycle.spec_position() + 1
                &&& moved.spec_uploaded() == cycle.spec_uploaded()
            },
            cycle.spec_position() < self.descriptor().file_bundles.len() && probe.src_dir_exists
                && probe.files@.len() > 0 ==> {
                &&& step matches BundleStep::Upload(artifact, pending)
                &&& artifact.bundle_name@ == self.descriptor().file_bundles[cycle.spec_position()].bundle_name
                &&& artifact.path@ == self.bundle_path(cycle.spec_position())
                &&& artifact.text@ == bundle_text(file_views(probe.files@))
                &&& artifact.force_reupload == (cycle.recreates() || !probe.artifact_exists)
                &&& pending.recreates() == cycle.recreates()
                &&& pending.position() == cycle.spec_position()
                &&& pending.uploaded_before() == cycle.spec_uploaded()
                &&& pending.bundle() == artifact.bundle_name@
            },
    {
        proof {
            use_type_invariant(&self.checked);
            use_type_invariant(&cycle);
        }
        if cycle.next >= self.checked.config.file_bundles.len() {
            return BundleStep::Done(cycle.uploaded);
        }
        if !probe.src_dir_exists || probe.files.len() == 0 {
            return BundleStep::Skip(
                UploadCycle {
                    recreate: cycle.recreate,
                    next: cycle.next + 1,
                    uploaded: cycle.uploaded,
                },
            );
        }
        let bundle = &self.checked.config.file_bundles[cycle.next];
        assert(self.checked.config@.file_bundles[cycle.next as int] == bundle@);
        let path = bundle_file_path(
            self.checked.config.name.as_str(),
            bundle.bundle_name.as_str(),
            self.asst_id.as_str(),
            bundle.dst_ext.as_str(),
        );
        let text = bundle_to_file(&probe.files);
        let force_reupload = should_reupload(probe.artifact_exists, cycle.recreate);
        let artifact = BundleArtifact {
            bundle_name: bundle.bundle_name.clone(),
            path,
            text,
            force_reupload,
        };
        let pending = PendingUpload {
            recreate: cycle.recreate,
            index: cycle.next,
            uploaded: cycle.uploaded,
            bundle_name: bundle.bundle_name.clone(),
        };
        BundleStep::Upload(artifact, pending)
    }

    /// Takes the remote store's answer on an artifact. If the store took it,
    /// `BundleUploaded` is published with the bundle's name and the count
    /// goes up by one; if it had the artifact already, nothing is published
    /// and the count stays. Either way the cycle moves on to the next bundle.
    pub fn bundle_uploaded(&mut self, pending: PendingUpload, uploaded: bool) -> (moved:
        UploadCycle)
        ensures
            final(self).same_but_events(old(self)),
            moved.recreates() == pending.recreates(),
            moved.spec_position() == pending.position() + 1,
            uploaded ==> {
                &&& moved.spec_uploaded() == pending.uploaded_before() + 1
                &&& final(self).published().len() == old(self).published().len() + 1
                &&& final(self).published().drop_last() == old(self).published()
                &&& final(self).published().last() matches Event::BundleUploaded(name)
                &&& name@ == pending.bundle()
            },
            !uploaded ==> {
                &&& moved.spec_uploaded() == pending.uploaded_before()
                &&& final(self).published() == old(self).published()
            },
    {
        proof {
            use_type_invariant(&pending);
        }
        if uploaded {
            let ghost before = self.published();
            self.publish(Event::BundleUploaded(pending.bundle_name));
            assert(self.published().drop_last() =~= before);
            UploadCycle {
                recreate: pending.recreate,
                next: pending.index + 1,
                uploaded: pending.uploaded + 1,
            }
        } else {
            UploadCycle {
                recreate: pending.recreate,
                next: pending.index + 1,
                uploaded: pending.uploaded,
            }
        }
    }
}

} // verus!
