//! The lathe: a hand-written machine on the framework. Each state is a
//! zero-sized marker type, a `Lathe<State>` container owns the business data
//! for exactly one state, and the `LatheWrapper` sum type dispatches commands
//! at runtime against whichever state is current.

use vstd::prelude::*;

use crate::decimal::{dec_nat, push_dec_u32};
use crate::machines::shared::{
    ActorPhase, Machine, MachineController, ResponseModel, StateHandler,
};

verus! {

use core::marker::PhantomData;

/// Commands that are sent to the lathe.
#[derive(Debug)]
pub enum LatheCommand {
    StartSpinning(u32),
    StopSpinning,
    Feed(u32),
    StopFeed,
    Notaus,
    Acknowledge,
}

/// Responses returned by the lathe: the state reached, or the rejected
/// command together with the unchanged current state.
#[derive(Debug, Clone, PartialEq)]
pub enum LatheResponse {
    Status { state: &'static str },
    InvalidTransition { current_state: &'static str, attempted_command: String },
}

/// Lathe states: zero-sized marker types for compile-time state tracking.
#[derive(Debug)]
pub struct Off;

#[derive(Debug)]
pub struct Spinning;

#[derive(Debug)]
pub struct Feeding;

#[derive(Debug)]
pub struct Notaus;

/// Business data of the lathe.
#[derive(Debug)]
pub struct LatheData {
    pub revs: u32,
    pub feed: u32,
}

impl Default for LatheData {
    /// The rest state: no revolutions, no feed.
    fn default() -> (d: LatheData)
        ensures
            d == (LatheData { revs: 0, feed: 0 }),
    {
        LatheData { revs: 0, feed: 0 }
    }
}

/// The state container: a state marker bound to the exclusively owned
/// business data. Transitions consume the container and produce one tagged
/// with the destination state, so no container is ever used twice.
#[derive(Debug)]
pub struct Lathe<State> {
    pub state: PhantomData<State>,
    pub lathe_data: Box<LatheData>,
}

/// The state a lathe model is in.
pub enum LatheTag {
    Off,
    Spinning,
    Feeding,
    Notaus,
}

/// The model of a lathe: its state tag and its business data.
pub struct LatheView {
    pub tag: LatheTag,
    pub data: LatheData,
}

impl View for Lathe<Off> {
    type V = LatheView;

    open spec fn view(&self) -> LatheView {
        LatheView { tag: LatheTag::Off, data: *self.lathe_data }
    }
}

impl View for Lathe<Spinning> {
    type V = LatheView;

    open spec fn view(&self) -> LatheView {
        LatheView { tag: LatheTag::Spinning, data: *self.lathe_data }
    }
}

impl View for Lathe<Feeding> {
    type V = LatheView;

    open spec fn view(&self) -> LatheView {
        LatheView { tag: LatheTag::Feeding, data: *self.lathe_data }
    }
}

impl View for Lathe<Notaus> {
    type V = LatheView;

    open spec fn view(&self) -> LatheView {
        LatheView { tag: LatheTag::Notaus, data: *self.lathe_data }
    }
}

/// The name of each lathe state.
pub open spec fn lathe_state_name(tag: LatheTag) -> Seq<char> {
    match tag {
        LatheTag::Off => "Off"@,
        LatheTag::Spinning => "Spinning"@,
        LatheTag::Feeding => "Feeding"@,
        LatheTag::Notaus => "Notaus"@,
    }
}

/// The text a rejected command is reported as.
pub open spec fn lathe_command_label(cmd: LatheCommand) -> Seq<char> {
    match cmd {
        LatheCommand::StartSpinning(revs) => "StartSpinning("@ + dec_nat(revs as nat) + ")"@,
        LatheCommand::StopSpinning => "StopSpinning"@,
        LatheCommand::Feed(feed) => "Feed("@ + dec_nat(feed as nat) + ")"@,
        LatheCommand::StopFeed => "StopFeed"@,
        LatheCommand::Notaus => "Notaus"@,
        LatheCommand::Acknowledge => "Acknowledge"@,
    }
}

/// The declared transition table: exactly these state × command pairs move
/// the lathe; every other pair is rejected.
pub open spec fn lathe_accepts(tag: LatheTag, cmd: LatheCommand) -> bool {
    match (tag, cmd) {
        (LatheTag::Off, LatheCommand::StartSpinning(_)) => true,
        (LatheTag::Off, LatheCommand::Notaus) => true,
        (LatheTag::Spinning, LatheCommand::Feed(_)) => true,
        (LatheTag::Spinning, LatheCommand::StopSpinning) => true,
        (LatheTag::Spinning, LatheCommand::Notaus) => true,
        (LatheTag::Feeding, LatheCommand::StopFeed) => true,
        (LatheTag::Feeding, LatheCommand::Notaus) => true,
        (LatheTag::Notaus, LatheCommand::Acknowledge) => true,
        _ => false,
    }
}

/// The lathe model after one command: an accepted command moves to the
/// declared destination and mutates the data as declared; a rejected command
/// changes nothing.
pub open spec fn lathe_step_model(m: LatheView, cmd: LatheCommand) -> LatheView {
    match (m.tag, cmd) {
        (LatheTag::Off, LatheCommand::StartSpinning(revs)) => LatheView {
            tag: LatheTag::Spinning,
            data: LatheData { revs, feed: m.data.feed },
        },
        (LatheTag::Off, LatheCommand::Notaus) => LatheView { tag: LatheTag::Notaus, data: m.data },
        (LatheTag::Spinning, LatheCommand::Feed(feed)) => LatheView {
            tag: LatheTag::Feeding,
            data: LatheData { revs: m.data.revs, feed },
        },
        (LatheTag::Spinning, LatheCommand::StopSpinning) => LatheView {
            tag: LatheTag::Off,
            data: LatheData { revs: 0, feed: 0 },
        },
        (LatheTag::Spinning, LatheCommand::Notaus) => LatheView {
            tag: LatheTag::Notaus,
            data: m.data,
        },
        (LatheTag::Feeding, LatheCommand::StopFeed) => LatheView {
            tag: LatheTag::Spinning,
            data: LatheData { revs: m.data.revs, feed: 0 },
        },
        (LatheTag::Feeding, LatheCommand::Notaus) => LatheView {
            tag: LatheTag::Notaus,
            data: m.data,
        },
        (LatheTag::Notaus, LatheCommand::Acknowledge) => LatheView {
            tag: LatheTag::Off,
            data: LatheData { revs: 0, feed: 0 },
        },
        _ => m,
    }
}

/// The single response to one command: the new state's name when the
/// transition is declared, otherwise the unchanged state and the command.
pub open spec fn lathe_resp_model(m: LatheView, cmd: LatheCommand) -> ResponseModel {
    if lathe_accepts(m.tag, cmd) {
        ResponseModel::Status { state: lathe_state_name(lathe_step_model(m, cmd).tag) }
    } else {
        ResponseModel::InvalidTransition {
            current_state: lathe_state_name(m.tag),
            attempted_command: lathe_command_label(cmd),
        }
    }
}

impl View for LatheResponse {
    type V = ResponseModel;

    open spec fn view(&self) -> ResponseModel {
        match self {
            LatheResponse::Status { state } => ResponseModel::Status { state: state@ },
            LatheResponse::InvalidTransition { current_state, attempted_command } => {
                ResponseModel::InvalidTransition {
                    current_state: current_state@,
                    attempted_command: attempted_command@,
                }
            },
        }
    }
}

/// Renders the command the way a rejection reports it.
fn lathe_command_text(cmd: &LatheCommand) -> (s: String)
    ensures
        s@ == lathe_command_label(*cmd),
{
    match cmd {
        LatheCommand::StartSpinning(revs) => {
            let mut s = String::from_str("StartSpinning(");
            push_dec_u32(&mut s, *revs);
            s.append(")");
            proof {
                assert(s@ =~= lathe_command_label(*cmd));
            }
            s
        },
        LatheCommand::StopSpinning => String::from_str("StopSpinning"),
        LatheCommand::Feed(feed) => {
            let mut s = String::from_str("Feed(");
            push_dec_u32(&mut s, *feed);
            s.append(")");
            proof {
                assert(s@ =~= lathe_command_label(*cmd));
            }
            s
        },
        LatheCommand::StopFeed => String::from_str("StopFeed"),
        LatheCommand::Notaus => String::from_str("Notaus"),
        LatheCommand::Acknowledge => String::from_str("Acknowledge"),
    }
}

impl<State> Lathe<State> {
    /// A new lathe, always starting in the `Off` state.
    pub fn new(data: Box<LatheData>) -> (l: Lathe<Off>)
        ensures
            l@ == (LatheView { tag: LatheTag::Off, data: *data }),
    {
        Lathe { state: PhantomData, lathe_data: data }
    }

    /// Emergency stop: declared from every state, keeps the data unchanged.
    pub fn notaus(self) -> (l: Lathe<Notaus>)
        ensures
            l@ == (LatheView { tag: LatheTag::Notaus, data: *self.lathe_data }),
    {
        Lathe { state: PhantomData, lathe_data: self.lathe_data }
    }
}

impl Lathe<Off> {
    /// Starts the spindle at `revs` revolutions.
    pub fn start_spinning(self, revs: u32) -> (l: Lathe<Spinning>)
        ensures
            l@ == (LatheView {
                tag: LatheTag::Spinning,
                data: LatheData { revs, feed: self.lathe_data.feed },
            }),
    {
        let feed = self.lathe_data.feed;
        Lathe { state: PhantomData, lathe_data: Box::new(LatheData { revs, feed }) }
    }
}

impl Lathe<Spinning> {
    /// Engages the feed at the given rate.
    pub fn feed(self, feed: u32) -> (l: Lathe<Feeding>)
        ensures
            l@ == (LatheView {
                tag: LatheTag::Feeding,
                data: LatheData { revs: self.lathe_data.revs, feed },
            }),
    {
        let revs = self.lathe_data.revs;
        Lathe { state: PhantomData, lathe_data: Box::new(LatheData { revs, feed }) }
    }

    /// Stops the spindle: back to `Off` with the data reset.
    pub fn off(self) -> (l: Lathe<Off>)
        ensures
            l@ == (LatheView { tag: LatheTag::Off, data: LatheData { revs: 0, feed: 0 } }),
    {
        Lathe { state: PhantomData, lathe_data: Box::new(LatheData::default()) }
    }
}

impl Lathe<Feeding> {
    /// Disengages the feed, keeping the spindle running.
    pub fn stop_feed(self) -> (l: Lathe<Spinning>)
        ensures
            l@ == (LatheView {
                tag: LatheTag::Spinning,
                data: LatheData { revs: self.lathe_data.revs, feed: 0 },
            }),
    {
        let revs = self.lathe_data.revs;
        Lathe { state: PhantomData, lathe_data: Box::new(LatheData { revs, feed: 0 }) }
    }
}

impl Lathe<Notaus> {
    /// Acknowledges the emergency stop: back to `Off` with the data reset.
    pub fn acknowledge(self) -> (l: Lathe<Off>)
        ensures
            l@ == (LatheView { tag: LatheTag::Off, data: LatheData { revs: 0, feed: 0 } }),
    {
        Lathe { state: PhantomData, lathe_data: Box::new(LatheData::default()) }
    }
}

/// Runtime wrapper: one variant per declared state, erasing the static state
/// type so a single value can hold the machine in whichever state is current.
#[derive(Debug)]
pub enum LatheWrapper {
    Off(Lathe<Off>),
    Spinning(Lathe<Spinning>),
    Feeding(Lathe<Feeding>),
    Notaus(Lathe<Notaus>),
}

impl View for LatheWrapper {
    type V = LatheView;

    open spec fn view(&self) -> LatheView {
        match self {
            LatheWrapper::Off(l) => l@,
            LatheWrapper::Spinning(l) => l@,
            LatheWrapper::Feeding(l) => l@,
            LatheWrapper::Notaus(l) => l@,
        }
    }
}

impl LatheWrapper {
    /// A new wrapped lathe in the `Off` state.
    pub fn new(lathe_data: Box<LatheData>) -> (w: Self)
        ensures
            w@ == (LatheView { tag: LatheTag::Off, data: *lathe_data }),
    {
        LatheWrapper::Off(Lathe::<Off>::new(lathe_data))
    }

    /// Delegates the command to the handler of whichever state is current:
    /// total over every wrapper and command, returning the replacement
    /// wrapper and exactly one response.
    pub fn handle_cmd(self, cmd: LatheCommand) -> (r: (LatheWrapper, LatheResponse))
        ensures
            r.0@ == lathe_step_model(self@, cmd),
            r.1@ == lathe_resp_model(self@, cmd),
    {
        match self {
            LatheWrapper::Off(lathe) => lathe.handle_cmd(cmd),
            LatheWrapper::Spinning(lathe) => lathe.handle_cmd(cmd),
            LatheWrapper::Feeding(lathe) => lathe.handle_cmd(cmd),
            LatheWrapper::Notaus(lathe) => lathe.handle_cmd(cmd),
        }
    }
}

impl From<Box<LatheData>> for LatheWrapper {
    fn from(lathe_data: Box<LatheData>) -> Self {
        LatheWrapper::Off(Lathe::<Off>::new(lathe_data))
    }
}

/// What `LatheWrapper::from` means in contracts: a wrapped lathe in the
/// `Off` state around the given data.
impl vstd::std_specs::convert::FromSpecImpl<Box<LatheData>> for LatheWrapper {
    open spec fn obeys_from_spec() -> bool {
        true
    }

    open spec fn from_spec(t: Box<LatheData>) -> Self {
        LatheWrapper::Off(Lathe { state: PhantomData, lathe_data: t })
    }
}

impl Machine<LatheCommand, LatheResponse> for LatheWrapper {
    open spec fn step_model(m: LatheView, cmd: LatheCommand) -> LatheView {
        lathe_step_model(m, cmd)
    }

    open spec fn resp_model(m: LatheView, cmd: LatheCommand) -> ResponseModel {
        lathe_resp_model(m, cmd)
    }

    fn handle_cmd(self, cmd: LatheCommand) -> (r: (Self, LatheResponse)) {
        self.handle_cmd(cmd)
    }
}

/// Command handler for the `Off` state.
impl StateHandler<LatheCommand, LatheResponse, LatheWrapper> for Lathe<Off> {
    fn handle_cmd(self, cmd: LatheCommand) -> (r: (LatheWrapper, LatheResponse))
        ensures
            r.0@ == lathe_step_model(self@, cmd),
            r.1@ == lathe_resp_model(self@, cmd),
    {
        match cmd {
            LatheCommand::StartSpinning(revs) => {
                let new_lathe = self.start_spinning(revs);
                (LatheWrapper::Spinning(new_lathe), LatheResponse::Status { state: "Spinning" })
            },
            LatheCommand::Notaus => {
                let new_lathe = self.notaus();
                (LatheWrapper::Notaus(new_lathe), LatheResponse::Status { state: "Notaus" })
            },
            _ => {
                let attempted_command = lathe_command_text(&cmd);
                (
                    LatheWrapper::Off(self),
                    LatheResponse::InvalidTransition { current_state: "Off", attempted_command },
                )
            },
        }
    }
}

/// Command handler for the `Spinning` state.
impl StateHandler<LatheCommand, LatheResponse, LatheWrapper> for Lathe<Spinning> {
    fn handle_cmd(self, cmd: LatheCommand) -> (r: (LatheWrapper, LatheResponse))
        ensures
            r.0@ == lathe_step_model(self@, cmd),
            r.1@ == lathe_resp_model(self@, cmd),
    {
        match cmd {
            LatheCommand::Feed(feed_rate) => {
                let new_lathe = self.feed(feed_rate);
                (LatheWrapper::Feeding(new_lathe), LatheResponse::Status { state: "Feeding" })
            },
            LatheCommand::StopSpinning => {
                let new_lathe = self.off();
                (LatheWrapper::Off(new_lathe), LatheResponse::Status { state: "Off" })
            },
            LatheCommand::Notaus => {
                let new_lathe = self.notaus();
                (LatheWrapper::Notaus(new_lathe), LatheResponse::Status { state: "Notaus" })
            },
            _ => {
                let attempted_command = lathe_command_text(&cmd);
                (
                    LatheWrapper::Spinning(self),
                    LatheResponse::InvalidTransition {
                        current_state: "Spinning",
                        attempted_command,
                    },
                )
            },
        }
    }
}

/// Command handler for the `Feeding` state.
impl StateHandler<LatheCommand, LatheResponse, LatheWrapper> for Lathe<Feeding> {
    fn handle_cmd(self, cmd: LatheCommand) -> (r: (LatheWrapper, LatheResponse))
        ensures
            r.0@ == lathe_step_model(self@, cmd),
            r.1@ == lathe_resp_model(self@, cmd),
    {
        match cmd {
            LatheCommand::StopFeed => {
                let new_lathe = self.stop_feed();
                (LatheWrapper::Spinning(new_lathe), LatheResponse::Status { state: "Spinning" })
            },
            LatheCommand::Notaus => {
                let new_lathe = self.notaus();
                (LatheWrapper::Notaus(new_lathe), LatheResponse::Status { state: "Notaus" })
            },
            _ => {
                let attempted_command = lathe_command_text(&cmd);
                (
                    LatheWrapper::Feeding(self),
                    LatheResponse::InvalidTransition {
                        current_state: "Feeding",
                        attempted_command,
                    },
                )
            },
        }
    }
}

/// Command handler for the `Notaus` (emergency stop) state.
impl StateHandler<LatheCommand, LatheResponse, LatheWrapper> for Lathe<Notaus> {
    fn handle_cmd(self, cmd: LatheCommand) -> (r: (LatheWrapper, LatheResponse))
        ensures
            r.0@ == lathe_step_model(self@, cmd),
            r.1@ == lathe_resp_model(self@, cmd),
    {
        match cmd {
            LatheCommand::Acknowledge => {
                let new_lathe = self.acknowledge();
                (LatheWrapper::Off(new_lathe), LatheResponse::Status { state: "Off" })
            },
            _ => {
                let attempted_command = lathe_command_text(&cmd);
                (
                    LatheWrapper::Notaus(self),
                    LatheResponse::InvalidTransition {
                        current_state: "Notaus",
                        attempted_command,
                    },
                )
            },
        }
    }
}

/// The wrapper as the dispatch trait sees it: same entry point, same
/// contract.
impl StateHandler<LatheCommand, LatheResponse, LatheWrapper> for LatheWrapper {
    fn handle_cmd(self, cmd: LatheCommand) -> (r: (LatheWrapper, LatheResponse))
        ensures
            r.0@ == lathe_step_model(self@, cmd),
            r.1@ == lathe_resp_model(self@, cmd),
    {
        self.handle_cmd(cmd)
    }
}

/// Totality of the lathe's dispatch: every state × command pair has a
/// defined outcome — a declared move reported with the destination's name,
/// or a rejection that leaves the machine model entirely unchanged and
/// reports the pre-transition state and the attempted command.
pub proof fn lemma_lathe_totality(m: LatheView, cmd: LatheCommand)
    ensures
        lathe_accepts(m.tag, cmd) ==> lathe_resp_model(m, cmd) == (ResponseModel::Status {
            state: lathe_state_name(lathe_step_model(m, cmd).tag),
        }),
        !lathe_accepts(m.tag, cmd) ==> lathe_step_model(m, cmd) == m,
        !lathe_accepts(m.tag, cmd) ==> lathe_resp_model(m, cmd)
            == (ResponseModel::InvalidTransition {
            current_state: lathe_state_name(m.tag),
            attempted_command: lathe_command_label(cmd),
        }),
{
}

/// The caller-facing lathe controller.
pub type LatheController = MachineController<LatheCommand, LatheResponse, LatheWrapper>;

impl LatheController {
    /// A fresh lathe controller: the machine starts in `Off` with the given
    /// data, both mailboxes empty.
    pub fn create(lathe_data: Box<LatheData>) -> (c: Self)
        ensures
            c.wf(),
            c.machine() == (LatheView { tag: LatheTag::Off, data: *lathe_data }),
            c.phase() == ActorPhase::Running,
            c.pending@ == Seq::<LatheCommand>::empty(),
            c.ready@ == Seq::<LatheResponse>::empty(),
    {
        MachineController::new(LatheWrapper::new(lathe_data))
    }
}

} // verus!
