//! The decisions of one request, as a state machine. The caller performs each
//! action (probing the filesystem, running the external tool, piping its
//! streams) and hands back what happened as the next event.

use vstd::prelude::*;
use crate::locator::{
    is_safe_repo_name, marker_path, marker_path_spec, repo_path_spec, AppState,
};
use crate::reply::{
    advertisement_body_spec, advertisement_reply, failure, failure_view, lemma_known_service_line_fits, Reply, ReplyView,
};
use crate::service::{
    advertisement_type_spec, is_known_service, is_receive_service, receive_pack, resolve_service, result_content_type,
    result_type_spec, strip_git_prefix_spec, ErrorKind, Mode, ServiceRequest,
};

verus! {

/// The arguments of one run of the external tool.
#[derive(Debug)]
pub struct GitCommand {
    pub args: Vec<String>,
}

impl View for GitCommand {
    type V = Seq<Seq<char>>;

    open spec fn view(&self) -> Seq<Seq<char>> {
        self.args@.map_values(|a: String| a@)
    }
}

/// `<command> --stateless-rpc --advertise-refs <path>`
pub open spec fn advertise_args(command: Seq<char>, path: Seq<char>) -> Seq<Seq<char>> {
    seq![command, "--stateless-rpc"@, "--advertise-refs"@, path]
}

/// `<command> --stateless-rpc <path>`
pub open spec fn rpc_args(command: Seq<char>, path: Seq<char>) -> Seq<Seq<char>> {
    seq![command, "--stateless-rpc"@, path]
}

/// `--git-dir <path> update-server-info`
pub open spec fn refresh_args(path: Seq<char>) -> Seq<Seq<char>> {
    seq!["--git-dir"@, path, "update-server-info"@]
}

fn advertise_command(command: &String, path: &String) -> (r: GitCommand)
    ensures
        r@ == advertise_args(command@, path@),
{
    let mut args: Vec<String> = Vec::new();
    args.push(command.clone());
    args.push(String::from_str("--stateless-rpc"));
    args.push(String::from_str("--advertise-refs"));
    args.push(path.clone());
    let r = GitCommand { args };
    assert(r@ =~= advertise_args(command@, path@));
    r
}

fn rpc_command(command: &String, path: &String) -> (r: GitCommand)
    ensures
        r@ == rpc_args(command@, path@),
{
    let mut args: Vec<String> = Vec::new();
    args.push(command.clone());
    args.push(String::from_str("--stateless-rpc"));
    args.push(path.clone());
    let r = GitCommand { args };
    assert(r@ =~= rpc_args(command@, path@));
    r
}

fn refresh_command(path: &String) -> (r: GitCommand)
    ensures
        r@ == refresh_args(path@),
{
    let mut args: Vec<String> = Vec::new();
    args.push(String::from_str("--git-dir"));
    args.push(path.clone());
    args.push(String::from_str("update-server-info"));
    let r = GitCommand { args };
    assert(r@ =~= refresh_args(path@));
    r
}

/// Where a request stands.
#[derive(Clone, Copy, PartialEq, Eq, Structural, Debug)]
pub enum Phase {
    /// Waiting to learn whether the repository exists.
    Locate,
    /// Advertisement: waiting for the tool's run to finish.
    Run,
    /// RPC: waiting for the tool to be spawned with piped streams.
    Spawn,
    /// RPC: waiting for the request body to be written and the input closed.
    Feed,
    /// RPC: waiting for the output to be drained and the tool to exit.
    Drain,
    /// RPC: waiting for the post-receive refresh; the reply is already fixed.
    Refresh,
    /// The reply has been handed out.
    Done,
}

/// What happened when the last action was performed.
#[derive(Debug)]
pub enum Event {
    /// The repository's root marker was found, or not.
    Located(bool),
    /// The tool was spawned with piped streams, or spawning failed.
    Spawned(bool),
    /// The whole request body was written and the input closed, or writing failed.
    InputClosed(bool),
    /// The tool exited; `success` is a zero exit status.
    Exited { success: bool, output: Vec<u8> },
    /// Spawning the tool or reading its output failed.
    Failed,
    /// The post-receive refresh finished, successfully or not.
    Refreshed(bool),
}

/// What the caller is to do next.
#[derive(Debug)]
pub enum Action {
    /// Run the tool with these arguments and collect its output.
    Run(GitCommand),
    /// Spawn the tool with these arguments and all three streams piped.
    Spawn(GitCommand),
    /// Write the whole request body to the tool's input, then close it.
    /// The caller may drain the output at the same time, so that a tool
    /// which writes before it has read all its input cannot stall; it then
    /// reports `InputClosed` once the input is closed and keeps the output.
    FeedAndClose,
    /// Drain the tool's output to its end and wait for it to exit; where the
    /// output was already drained alongside the input, report what it was.
    Drain,
    /// Run the maintenance command; its outcome cannot change the reply.
    Refresh(GitCommand),
    /// Send this reply; the request is over.
    Respond(Reply),
}

/// Whether `event` is one the machine waits for in `phase`.
pub open spec fn expects(phase: Phase, event: Event) -> bool {
    match phase {
        Phase::Locate => event is Located,
        Phase::Run => event is Exited || event is Failed,
        Phase::Spawn => event is Spawned,
        Phase::Feed => event is InputClosed,
        Phase::Drain => event is Exited || event is Failed,
        Phase::Refresh => event is Refreshed,
        Phase::Done => false,
    }
}

/// The kind of an action, without its arguments.
#[derive(Clone, Copy, PartialEq, Eq, Structural, Debug)]
pub enum ActionKind {
    Run,
    Spawn,
    FeedAndClose,
    Drain,
    Refresh,
    Respond,
}

pub open spec fn kind_of(a: Action) -> ActionKind {
    match a {
        Action::Run(_) => ActionKind::Run,
        Action::Spawn(_) => ActionKind::Spawn,
        Action::FeedAndClose => ActionKind::FeedAndClose,
        Action::Drain => ActionKind::Drain,
        Action::Refresh(_) => ActionKind::Refresh,
        Action::Respond(_) => ActionKind::Respond,
    }
}

/// The tool exited with a zero status.
pub open spec fn exited_ok(e: Event) -> bool {
    e matches Event::Exited { success, .. } && success
}

/// The phase that follows `event` in `phase`, for a request in `mode` whose
/// service is the receive one exactly when `receive`.
pub open spec fn next_phase(phase: Phase, mode: Mode, receive: bool, event: Event) -> Phase {
    if !expects(phase, event) {
        Phase::Done
    } else {
        match phase {
            Phase::Locate => if event == Event::Located(true) {
                if mode == Mode::Advertisement {
                    Phase::Run
                } else {
                    Phase::Spawn
                }
            } else {
                Phase::Done
            },
            Phase::Spawn => if event == Event::Spawned(true) {
                Phase::Feed
            } else {
                Phase::Done
            },
            Phase::Feed => if event == Event::InputClosed(true) {
                Phase::Drain
            } else {
                Phase::Done
            },
            Phase::Drain => if exited_ok(event) && receive {
                Phase::Refresh
            } else {
                Phase::Done
            },
            _ => Phase::Done,
        }
    }
}

/// The kind of action that `event` in `phase` leads to.
pub open spec fn next_action(phase: Phase, mode: Mode, receive: bool, event: Event) -> ActionKind {
    if !expects(phase, event) {
        ActionKind::Respond
    } else {
        match phase {
            Phase::Locate => if event == Event::Located(true) {
                if mode == Mode::Advertisement {
                    ActionKind::Run
                } else {
                    ActionKind::Spawn
                }
            } else {
                ActionKind::Respond
            },
            Phase::Spawn => if event == Event::Spawned(true) {
                ActionKind::FeedAndClose
            } else {
                ActionKind::Respond
            },
            Phase::Feed => if event == Event::InputClosed(true) {
                ActionKind::Drain
            } else {
                ActionKind::Respond
            },
            Phase::Drain => if exited_ok(event) && receive {
                ActionKind::Refresh
            } else {
                ActionKind::Respond
            },
            _ => ActionKind::Respond,
        }
    }
}

/// How many refresh actions a request issues when it meets `events`,
/// starting in `phase`.
pub open spec fn refresh_count(phase: Phase, mode: Mode, receive: bool, events: Seq<Event>) -> nat
    decreases events.len(),
{
    if events.len() == 0 {
        0
    } else {
        (if next_action(phase, mode, receive, events[0]) == ActionKind::Refresh {
            1nat
        } else {
            0nat
        }) + refresh_count(
            next_phase(phase, mode, receive, events[0]),
            mode,
            receive,
            events.drop_first(),
        )
    }
}

proof fn lemma_no_refresh_after(phase: Phase, mode: Mode, receive: bool, events: Seq<Event>)
    requires
        phase == Phase::Refresh || phase == Phase::Done || !receive,
    ensures
        refresh_count(phase, mode, receive, events) == 0,
    decreases events.len(),
{
    if events.len() > 0 {
        let next = next_phase(phase, mode, receive, events[0]);
        lemma_no_refresh_after(next, mode, receive, events.drop_first());
    }
}

proof fn lemma_refresh_at_most_once(phase: Phase, mode: Mode, receive: bool, events: Seq<Event>)
    ensures
        refresh_count(phase, mode, receive, events) <= 1,
    decreases events.len(),
{
    if events.len() > 0 {
        let next = next_phase(phase, mode, receive, events[0]);
        if next_action(phase, mode, receive, events[0]) == ActionKind::Refresh {
            lemma_no_refresh_after(next, mode, receive, events.drop_first());
        } else {
            lemma_refresh_at_most_once(next, mode, receive, events.drop_first());
        }
    }
}

/// Whatever events a request meets, it asks for the post-receive refresh at
/// most once; never for a service other than the receive one; and exactly
/// once for a receive RPC that spawns, closes its input and exits
/// successfully, whatever follows.
pub proof fn lemma_post_receive_once(mode: Mode, receive: bool, events: Seq<Event>)
    ensures
        refresh_count(Phase::Locate, mode, receive, events) <= 1,
        !receive ==> refresh_count(Phase::Locate, mode, receive, events) == 0,
        receive && mode == Mode::Rpc && events.len() >= 4 && events[0] == Event::Located(true)
            && events[1] == Event::Spawned(true) && events[2] == Event::InputClosed(true)
            && exited_ok(events[3]) ==> refresh_count(Phase::Locate, mode, receive, events) == 1,
{
    lemma_refresh_at_most_once(Phase::Locate, mode, receive, events);
    if !receive {
        lemma_no_refresh_after(Phase::Locate, mode, receive, events);
    }
    if receive && mode == Mode::Rpc && events.len() >= 4 && events[0] == Event::Located(true)
        && events[1] == Event::Spawned(true) && events[2] == Event::InputClosed(true) && exited_ok(
        events[3],
    ) {
        let e1 = events.drop_first();
        let e2 = e1.drop_first();
        let e3 = e2.drop_first();
        let e4 = e3.drop_first();
        assert(e1[0] == events[1]);
        assert(e2[0] == events[2]);
        assert(e3[0] == events[3]);
        lemma_no_refresh_after(Phase::Refresh, mode, receive, e4);
        assert(refresh_count(Phase::Drain, mode, receive, e3) == 1);
        assert(refresh_count(Phase::Feed, mode, receive, e2) == 1);
        assert(refresh_count(Phase::Spawn, mode, receive, e1) == 1);
    }
}

/// The order of the phases; every step moves strictly forward, so each phase,
/// and each action that enters it, comes at most once per request.
pub open spec fn rank(phase: Phase) -> nat {
    match phase {
        Phase::Locate => 0,
        Phase::Run => 1,
        Phase::Spawn => 1,
        Phase::Feed => 2,
        Phase::Drain => 3,
        Phase::Refresh => 4,
        Phase::Done => 5,
    }
}

/// One request being served.
#[derive(Debug)]
pub struct Exchange {
    pub request: ServiceRequest,
    pub repo_path: String,
    pub phase: Phase,
    /// The reply decided before the post-receive refresh.
    pub pending: Option<Reply>,
}

/// `a` sends a reply whose model is `v`.
pub open spec fn responds(a: Action, v: ReplyView) -> bool {
    a matches Action::Respond(r) && r@ == v
}

impl Exchange {
    /// The request is resolved, and a reply is held back exactly while the
    /// refresh runs.
    pub open spec fn wf(&self) -> bool {
        &&& self.request.wf()
        &&& (self.phase == Phase::Refresh <==> self.pending is Some)
    }

    /// Starts serving a request for `service` on repository `repo_name`.
    /// Refuses with a client error reply exactly when the service is not
    /// known or the repository name is unsafe.
    pub fn new(state: &AppState, repo_name: &str, service: &str, mode: Mode) -> (r: Result<
        Exchange,
        Reply,
    >)
        ensures
            is_known_service(strip_git_prefix_spec(service@)) && is_safe_repo_name(repo_name@)
                ==> (r matches Ok(ex) && ex.wf() && ex.phase == Phase::Locate
                && ex.request.requested@ == service@ && ex.request.mode == mode
                && ex.repo_path@ == repo_path_spec(state.git_root@, repo_name@)),
            !(is_known_service(strip_git_prefix_spec(service@)) && is_safe_repo_name(repo_name@))
                ==> (r matches Err(e) && e@ == failure_view(ErrorKind::Client)),
    {
        let request = match resolve_service(service, mode) {
            Ok(req) => req,
            Err(_) => {
                return Err(failure(ErrorKind::Client));
            },
        };
        match state.repo_path(repo_name) {
            Some(repo_path) => Ok(Exchange { request, repo_path, phase: Phase::Locate, pending: None }),
            None => Err(failure(ErrorKind::Client)),
        }
    }

    /// The file whose presence tells that the repository exists.
    pub fn probe_path(&self) -> (r: String)
        ensures
            r@ == marker_path_spec(self.repo_path@),
    {
        marker_path(self.repo_path.as_str())
    }

    fn finish(&mut self, reply: Reply) -> (a: Action)
        ensures
            final(self).phase == Phase::Done,
            final(self).pending is None,
            final(self).request == old(self).request,
            final(self).repo_path == old(self).repo_path,
            a == Action::Respond(reply),
    {
        self.phase = Phase::Done;
        self.pending = None;
        Action::Respond(reply)
    }

    /// Advances the request by one event and returns the next action.
    pub fn step(&mut self, event: Event) -> (a: Action)
        requires
            old(self).wf(),
        ensures
            final(self).wf(),
            final(self).request == old(self).request,
            final(self).repo_path == old(self).repo_path,
            rank(old(self).phase) < rank(final(self).phase) || final(self).phase == Phase::Done,
            final(self).phase == next_phase(
                old(self).phase,
                old(self).request.mode,
                old(self).request.command@ == receive_pack(),
                event,
            ),
            kind_of(a) == next_action(
                old(self).phase,
                old(self).request.mode,
                old(self).request.command@ == receive_pack(),
                event,
            ),
            !expects(old(self).phase, event) ==> final(self).phase == Phase::Done && responds(
                a,
                failure_view(ErrorKind::Subprocess),
            ),
            // A missing repository is answered without running anything.
            old(self).phase == Phase::Locate && event == Event::Located(false) ==> final(self).phase == Phase::Done && responds(a, failure_view(ErrorKind::NotFound)),
            old(self).phase == Phase::Locate && event == Event::Located(true)
                && old(self).request.mode == Mode::Advertisement ==> final(self).phase == Phase::Run
                && (a matches Action::Run(c) && c@ == advertise_args(
                old(self).request.command@,
                old(self).repo_path@,
            )),
            old(self).phase == Phase::Locate && event == Event::Located(true)
                && old(self).request.mode == Mode::Rpc ==> final(self).phase == Phase::Spawn && (
            a matches Action::Spawn(c) && c@ == rpc_args(
                old(self).request.command@,
                old(self).repo_path@,
            )),
            // Advertisement: a successful run is framed, anything else fails.
            old(self).phase == Phase::Run && exited_ok(event) ==> final(self).phase == Phase::Done
                && (event matches Event::Exited { output, .. } && responds(
                a,
                ReplyView::Content {
                    content_type: advertisement_type_spec(old(self).request.requested@),
                    body: advertisement_body_spec(old(self).request.requested@, output@),
                },
            )),
            old(self).phase == Phase::Run && (event is Failed || (event matches Event::Exited {
                success,
                ..
            } && !success)) ==> final(self).phase == Phase::Done && responds(
                a,
                failure_view(ErrorKind::Subprocess),
            ),
            // RPC: the input is written and closed before the output is drained.
            old(self).phase == Phase::Spawn && event == Event::Spawned(true) ==> final(self).phase
                == Phase::Feed && a is FeedAndClose,
            old(self).phase == Phase::Spawn && event == Event::Spawned(false) ==> final(self).phase
                == Phase::Done && responds(a, failure_view(ErrorKind::Subprocess)),
            old(self).phase == Phase::Feed && event == Event::InputClosed(true) ==> final(self).phase == Phase::Drain && a is Drain,
            old(self).phase == Phase::Feed && event == Event::InputClosed(false) ==> final(self).phase == Phase::Done && responds(a, failure_view(ErrorKind::Subprocess)),
            old(self).phase == Phase::Drain && (event is Failed || (event matches Event::Exited {
                success,
                ..
            } && !success)) ==> final(self).phase == Phase::Done && responds(
                a,
                failure_view(ErrorKind::Subprocess),
            ),
            // RPC success: the output is the body, unchanged; only the receive
            // service asks for the refresh, and holds its reply back until then.
            old(self).phase == Phase::Drain && (event matches Event::Exited { success, output }
                && success) ==> (event matches Event::Exited { output, .. } && {
                let v = ReplyView::Content {
                    content_type: result_type_spec(old(self).request.command@),
                    body: output@,
                };
                if old(self).request.command@ == receive_pack() {
                    &&& final(self).phase == Phase::Refresh
                    &&& (a matches Action::Refresh(c) && c@ == refresh_args(old(self).repo_path@))
                    &&& (final(self).pending matches Some(r) && r@ == v)
                } else {
                    final(self).phase == Phase::Done && responds(a, v)
                }
            }),
            // The refresh's outcome never changes the reply already decided.
            old(self).phase == Phase::Refresh && event is Refreshed ==> final(self).phase
                == Phase::Done && old(self).pending == Some(a->Respond_0),
            // Ordering of the actions.
            a is Run || a is Spawn ==> old(self).phase == Phase::Locate && event == Event::Located(
                true,
            ),
            a is FeedAndClose ==> old(self).phase == Phase::Spawn,
            a is Drain ==> old(self).phase == Phase::Feed && event == Event::InputClosed(true),
            a is Refresh ==> old(self).phase == Phase::Drain && old(self).request.command@
                == receive_pack() && final(self).phase == Phase::Refresh,
    {
        match (self.phase, event) {
            (Phase::Locate, Event::Located(found)) => {
                if !found {
                    self.finish(failure(ErrorKind::NotFound))
                } else {
                    match self.request.mode {
                        Mode::Advertisement => {
                            self.phase = Phase::Run;
                            Action::Run(advertise_command(&self.request.command, &self.repo_path))
                        },
                        Mode::Rpc => {
                            self.phase = Phase::Spawn;
                            Action::Spawn(rpc_command(&self.request.command, &self.repo_path))
                        },
                    }
                }
            },
            (Phase::Run, Event::Exited { success, output }) => {
                if success {
                    proof {
                        lemma_known_service_line_fits(self.request.requested@);
                    }
                    let reply = advertisement_reply(self.request.requested.as_str(), output.as_slice());
                    self.finish(reply)
                } else {
                    self.finish(failure(ErrorKind::Subprocess))
                }
            },
            (Phase::Spawn, Event::Spawned(ok)) => {
                if ok {
                    self.phase = Phase::Feed;
                    Action::FeedAndClose
                } else {
                    self.finish(failure(ErrorKind::Subprocess))
                }
            },
            (Phase::Feed, Event::InputClosed(ok)) => {
                if ok {
                    self.phase = Phase::Drain;
                    Action::Drain
                } else {
                    self.finish(failure(ErrorKind::Subprocess))
                }
            },
            (Phase::Drain, Event::Exited { success, output }) => {
                if success {
                    let reply = Reply::Content {
                        content_type: result_content_type(self.request.command.as_str()),
                        body: output,
                    };
                    if is_receive_service(self.request.command.as_str()) {
                        self.phase = Phase::Refresh;
                        self.pending = Some(reply);
                        Action::Refresh(refresh_command(&self.repo_path))
                    } else {
                        self.finish(reply)
                    }
                } else {
                    self.finish(failure(ErrorKind::Subprocess))
                }
            },
            (Phase::Refresh, Event::Refreshed(_)) => {
                let reply = self.pending.take();
                self.phase = Phase::Done;
                match reply {
                    Some(r) => Action::Respond(r),
                    None => Action::Respond(failure(ErrorKind::Subprocess)),
                }
            },
            (_, _) => self.finish(failure(ErrorKind::Subprocess)),
        }
    }
}

} // verus!
