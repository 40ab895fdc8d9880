//! The mill: a machine whose transition table is kept as explicit data-free
//! dispatch logic over a runtime state enum, with the same response taxonomy
//! as the lathe. Its states and declared transitions: Off moves to Spinning
//! on StartSpinning; Spinning moves back to Off on StopSpinning or to Moving
//! on Move; Moving moves back to Spinning on StopMoving.

use vstd::prelude::*;

use crate::decimal::{dec_int, dec_nat, i32_to_decimal, push_dec_u32};
use crate::machines::shared::{ActorPhase, Machine, MachineController, ResponseModel};

verus! {

/// Commands that can be sent to the mill.
#[derive(Debug, Clone)]
pub enum MillCommand {
    StartSpinning(u32),
    StopSpinning,
    Move(i32),
    StopMoving,
}

/// Responses returned by the mill: the state reached, or the rejected
/// command together with the unchanged current state.
#[derive(Debug, Clone, PartialEq)]
pub enum MillResponse {
    Status { state: &'static str },
    InvalidTransition { current_state: &'static str, attempted_command: String },
}

/// The mill's runtime state tag: one of a closed set of declared states.
#[derive(Debug, Clone, Copy, PartialEq, Eq, Structural)]
pub enum MillState {
    Off,
    Spinning,
    Moving,
}

/// Business data of the mill.
#[derive(Debug)]
pub struct MillData {
    pub revs: u32,
    pub linear_move: i32,
}

impl Default for MillData {
    /// The rest state: no revolutions, no linear movement.
    fn default() -> (d: MillData)
        ensures
            d == (MillData { revs: 0, linear_move: 0 }),
    {
        MillData { revs: 0, linear_move: 0 }
    }
}

/// The mill machine: the current state tag together with the exclusively
/// owned business data. Being a plain record, the machine is its own model.
#[derive(Debug)]
pub struct MillFSM {
    pub machine: MillState,
    pub data: MillData,
}

impl View for MillFSM {
    type V = MillFSM;

    open spec fn view(&self) -> MillFSM {
        *self
    }
}

/// The name of each mill state.
pub open spec fn mill_state_name(state: MillState) -> Seq<char> {
    match state {
        MillState::Off => "Off"@,
        MillState::Spinning => "Spinning"@,
        MillState::Moving => "Moving"@,
    }
}

/// The text a rejected command is reported as.
pub open spec fn mill_command_label(cmd: MillCommand) -> Seq<char> {
    match cmd {
        MillCommand::StartSpinning(revs) => "StartSpinning("@ + dec_nat(revs as nat) + ")"@,
        MillCommand::StopSpinning => "StopSpinning"@,
        MillCommand::Move(linear_move) => "Move("@ + dec_int(linear_move as int) + ")"@,
        MillCommand::StopMoving => "StopMoving"@,
    }
}

/// The declared transition table: exactly these state × command pairs move
/// the mill; every other pair is rejected.
pub open spec fn mill_accepts(state: MillState, cmd: MillCommand) -> bool {
    match (state, cmd) {
        (MillState::Off, MillCommand::StartSpinning(_)) => true,
        (MillState::Spinning, MillCommand::StopSpinning) => true,
        (MillState::Spinning, MillCommand::Move(_)) => true,
        (MillState::Moving, MillCommand::StopMoving) => true,
        _ => false,
    }
}

/// The mill after one command: an accepted command moves to the declared
/// destination and mutates the data as declared; a rejected command changes
/// nothing.
pub open spec fn mill_step_model(m: MillFSM, cmd: MillCommand) -> MillFSM {
    match (m.machine, cmd) {
        (MillState::Off, MillCommand::StartSpinning(revs)) => MillFSM {
            machine: MillState::Spinning,
            data: MillData { revs, linear_move: m.data.linear_move },
        },
        (MillState::Spinning, MillCommand::StopSpinning) => MillFSM {
            machine: MillState::Off,
            data: MillData { revs: 0, linear_move: m.data.linear_move },
        },
        (MillState::Spinning, MillCommand::Move(linear_move)) => MillFSM {
            machine: MillState::Moving,
            data: MillData { revs: m.data.revs, linear_move },
        },
        (MillState::Moving, MillCommand::StopMoving) => MillFSM {
            machine: MillState::Spinning,
            data: MillData { revs: m.data.revs, linear_move: 0 },
        },
        _ => m,
    }
}

/// The single response to one command: the new state's name when the
/// transition is declared, otherwise the unchanged state and the command.
pub open spec fn mill_resp_model(m: MillFSM, cmd: MillCommand) -> ResponseModel {
    if mill_accepts(m.machine, cmd) {
        ResponseModel::Status { state: mill_state_name(mill_step_model(m, cmd).machine) }
    } else {
        ResponseModel::InvalidTransition {
            current_state: mill_state_name(m.machine),
            attempted_command: mill_command_label(cmd),
        }
    }
}

impl View for MillResponse {
    type V = ResponseModel;

    open spec fn view(&self) -> ResponseModel {
        match self {
            MillResponse::Status { state } => ResponseModel::Status { state: state@ },
            MillResponse::InvalidTransition { current_state, attempted_command } => {
                ResponseModel::InvalidTransition {
                    current_state: current_state@,
                    attempted_command: attempted_command@,
                }
            },
        }
    }
}

/// Renders the command the way a rejection reports it.
fn mill_command_text(cmd: &MillCommand) -> (s: String)
    ensures
        s@ == mill_command_label(*cmd),
{
    match cmd {
        MillCommand::StartSpinning(revs) => {
            let mut s = String::from_str("StartSpinning(");
            push_dec_u32(&mut s, *revs);
            s.append(")");
            proof {
                assert(s@ =~= mill_command_label(*cmd));
            }
            s
        },
        MillCommand::StopSpinning => String::from_str("StopSpinning"),
        MillCommand::Move(linear_move) => {
            let mut s = String::from_str("Move(");
            let digits = i32_to_decimal(*linear_move);
            s.append(digits.as_str());
            s.append(")");
            proof {
                assert(s@ =~= mill_command_label(*cmd));
            }
            s
        },
        MillCommand::StopMoving => String::from_str("StopMoving"),
    }
}

impl MillFSM {
    /// A new mill in the `Off` state with the data at rest.
    pub fn new() -> (m: Self)
        ensures
            m == (MillFSM { machine: MillState::Off, data: MillData { revs: 0, linear_move: 0 } }),
    {
        MillFSM { machine: MillState::Off, data: MillData::default() }
    }

    /// Handles one command: an accepted command moves the state tag and
    /// mutates the data as declared and reports the new state's name; a
    /// rejected command leaves the machine unchanged and reports the current
    /// state and the attempted command. Total over every state and command.
    pub fn handle_command(&mut self, cmd: MillCommand) -> (r: MillResponse)
        ensures
            *final(self) == mill_step_model(*old(self), cmd),
            r@ == mill_resp_model(*old(self), cmd),
    {
        match (&cmd, self.machine) {
            (MillCommand::StartSpinning(revs), MillState::Off) => {
                self.data.revs = *revs;
                self.machine = MillState::Spinning;
                MillResponse::Status { state: "Spinning" }
            },
            (MillCommand::StopSpinning, MillState::Spinning) => {
                self.data.revs = 0;
                self.machine = MillState::Off;
                MillResponse::Status { state: "Off" }
            },
            (MillCommand::Move(linear_move), MillState::Spinning) => {
                self.data.linear_move = *linear_move;
                self.machine = MillState::Moving;
                MillResponse::Status { state: "Moving" }
            },
            (MillCommand::StopMoving, MillState::Moving) => {
                self.data.linear_move = 0;
                self.machine = MillState::Spinning;
                MillResponse::Status { state: "Spinning" }
            },
            _ => {
                let current_state = self.get_state_name();
                let attempted_command = mill_command_text(&cmd);
                MillResponse::InvalidTransition { current_state, attempted_command }
            },
        }
    }

    /// The business data, read-only.
    pub fn get_data(&self) -> (d: &MillData)
        ensures
            *d == self.data,
    {
        &self.data
    }

    /// The name of the current state.
    pub fn get_state_name(&self) -> (name: &'static str)
        ensures
            name@ == mill_state_name(self.machine),
    {
        match self.machine {
            MillState::Off => "Off",
            MillState::Spinning => "Spinning",
            MillState::Moving => "Moving",
        }
    }
}

impl Machine<MillCommand, MillResponse> for MillFSM {
    open spec fn step_model(m: MillFSM, cmd: MillCommand) -> MillFSM {
        mill_step_model(m, cmd)
    }

    open spec fn resp_model(m: MillFSM, cmd: MillCommand) -> ResponseModel {
        mill_resp_model(m, cmd)
    }

    fn handle_cmd(self, cmd: MillCommand) -> (r: (Self, MillResponse)) {
        let mut fsm = self;
        let response = fsm.handle_command(cmd);
        (fsm, response)
    }
}

/// Totality of the mill's dispatch: every state × command pair has a defined
/// outcome — a declared move reported with the destination's name, or a
/// rejection that leaves the machine entirely unchanged and reports the
/// pre-transition state and the attempted command.
pub proof fn lemma_mill_totality(m: MillFSM, cmd: MillCommand)
    ensures
        mill_accepts(m.machine, cmd) ==> mill_resp_model(m, cmd) == (ResponseModel::Status {
            state: mill_state_name(mill_step_model(m, cmd).machine),
        }),
        !mill_accepts(m.machine, cmd) ==> mill_step_model(m, cmd) == m,
        !mill_accepts(m.machine, cmd) ==> mill_resp_model(m, cmd)
            == (ResponseModel::InvalidTransition {
            current_state: mill_state_name(m.machine),
            attempted_command: mill_command_label(cmd),
        }),
{
}

/// The caller-facing mill controller.
pub type MillController = MachineController<MillCommand, MillResponse, MillFSM>;

/// Alias kept for callers that address the mill through the generic name.
pub type FsmController = MillController;

impl MillController {
    /// A fresh mill controller: the machine starts in `Off` with the given
    /// data, both mailboxes empty.
    pub fn create(data: Box<MillData>) -> (c: Self)
        ensures
            c.wf(),
            c.machine() == (MillFSM { machine: MillState::Off, data: *data }),
            c.phase() == ActorPhase::Running,
            c.pending@ == Seq::<MillCommand>::empty(),
            c.ready@ == Seq::<MillResponse>::empty(),
    {
        MachineController::new(MillFSM { machine: MillState::Off, data: *data })
    }
}

} // verus!
