//! The Control/Acknowledgement Mode (CAM) word carried by every
//! command packet: addressing flags, the action mode, and the
//! acknowledgement-request bits.

use vstd::prelude::*;

use crate::bits::{bit, clear_bit32, get_bit32, set_bit32};

verus! {

/// What a controllee or controller identifier looks like on the wire.
#[derive(Clone, Copy, Debug, PartialEq, Eq, Structural)]
pub enum IdFormat {
    /// A single 32-bit identifier word.
    Id32bit,
    /// A 128-bit UUID spanning four words.
    Uuid128bit,
}

/// How the receiver of a control packet is to act on it.
#[derive(Clone, Copy, Debug, PartialEq, Eq, Structural)]
pub enum ActionMode {
    /// Do not execute; no state is touched.
    NoAction,
    /// Validate the request without executing it.
    DryRun,
    /// Execute the request.
    Execute,
}

/// Bit positions within the CAM word.
pub const CAM_CONTROLLEE_ENABLED_BIT: u32 = 31;

pub const CAM_CONTROLLEE_FORMAT_BIT: u32 = 30;

pub const CAM_CONTROLLER_ENABLED_BIT: u32 = 29;

pub const CAM_CONTROLLER_FORMAT_BIT: u32 = 28;

pub const CAM_PARTIAL_BIT: u32 = 27;

pub const CAM_WARNINGS_PERMITTED_BIT: u32 = 26;

pub const CAM_ACTION_LO_BIT: u32 = 23;

pub const CAM_VALIDATION_BIT: u32 = 20;

pub const CAM_EXECUTION_BIT: u32 = 19;

pub const CAM_STATE_BIT: u32 = 18;

pub const CAM_WARNING_BIT: u32 = 17;

pub const CAM_ERROR_BIT: u32 = 16;

/// The CAM word, kept exactly as it stands on the wire. Reserved bits
/// are preserved across a decode/encode cycle.
#[derive(Clone, Copy, Debug, PartialEq, Eq, Structural)]
pub struct ControlAckMode(pub u32);

impl Default for ControlAckMode {
    /// An all-clear CAM word.
    fn default() -> (r: Self)
        ensures
            r.0 == 0,
    {
        ControlAckMode(0)
    }
}

impl ControlAckMode {
    /// Whether a controllee identifier follows the message ID.
    pub open spec fn spec_controllee_enabled(&self) -> bool {
        bit(self.0, CAM_CONTROLLEE_ENABLED_BIT)
    }

    /// Whether the controllee identifier is the 128-bit UUID form.
    pub open spec fn spec_controllee_id_format(&self) -> IdFormat {
        if bit(self.0, CAM_CONTROLLEE_FORMAT_BIT) {
            IdFormat::Uuid128bit
        } else {
            IdFormat::Id32bit
        }
    }

    /// Whether a controller identifier follows the controllee one.
    pub open spec fn spec_controller_enabled(&self) -> bool {
        bit(self.0, CAM_CONTROLLER_ENABLED_BIT)
    }

    /// Whether the controller identifier is the 128-bit UUID form.
    pub open spec fn spec_controller_id_format(&self) -> IdFormat {
        if bit(self.0, CAM_CONTROLLER_FORMAT_BIT) {
            IdFormat::Uuid128bit
        } else {
            IdFormat::Id32bit
        }
    }

    /// Whether partial execution of the packet is permitted.
    pub open spec fn spec_partial_packet_impl_permitted(&self) -> bool {
        bit(self.0, CAM_PARTIAL_BIT)
    }

    /// Whether execution despite warnings is permitted.
    pub open spec fn spec_warnings_permitted(&self) -> bool {
        bit(self.0, CAM_WARNINGS_PERMITTED_BIT)
    }

    /// The two-bit action-mode code.
    pub open spec fn spec_action_code(&self) -> u32 {
        (self.0 >> CAM_ACTION_LO_BIT) & 3
    }

    /// The decoded action mode; the reserved code reads as `NoAction`.
    pub open spec fn spec_action_mode(&self) -> ActionMode {
        if self.spec_action_code() == 1 {
            ActionMode::DryRun
        } else if self.spec_action_code() == 2 {
            ActionMode::Execute
        } else {
            ActionMode::NoAction
        }
    }

    /// Whether a validation acknowledgement is requested, or — in an
    /// ACK packet — whether this is a validation acknowledgement.
    pub open spec fn spec_validation(&self) -> bool {
        bit(self.0, CAM_VALIDATION_BIT)
    }

    /// Whether an execution acknowledgement is requested or present.
    pub open spec fn spec_execution(&self) -> bool {
        bit(self.0, CAM_EXECUTION_BIT)
    }

    /// Whether a query-state acknowledgement is requested or present.
    pub open spec fn spec_state(&self) -> bool {
        bit(self.0, CAM_STATE_BIT)
    }

    /// Whether warnings are requested or the warning bank is present.
    pub open spec fn spec_warning(&self) -> bool {
        bit(self.0, CAM_WARNING_BIT)
    }

    /// Whether errors are requested or the error bank is present.
    pub open spec fn spec_error(&self) -> bool {
        bit(self.0, CAM_ERROR_BIT)
    }

    /// The CAM word as a raw integer.
    pub fn as_u32(&self) -> (r: u32)
        ensures
            r == self.0,
    {
        self.0
    }

    /// The CAM word always occupies one 32-bit word.
    pub fn size_words(&self) -> (r: u16)
        ensures
            r == 1,
    {
        1
    }

    #[verifier::when_used_as_spec(spec_controllee_enabled)]
    pub fn controllee_enabled(&self) -> (r: bool)
        ensures
            r == self.spec_controllee_enabled(),
    {
        get_bit32(self.0, CAM_CONTROLLEE_ENABLED_BIT)
    }

    #[verifier::when_used_as_spec(spec_controllee_id_format)]
    pub fn controllee_id_format(&self) -> (r: IdFormat)
        ensures
            r == self.spec_controllee_id_format(),
    {
        if get_bit32(self.0, CAM_CONTROLLEE_FORMAT_BIT) {
            IdFormat::Uuid128bit
        } else {
            IdFormat::Id32bit
        }
    }

    #[verifier::when_used_as_spec(spec_controller_enabled)]
    pub fn controller_enabled(&self) -> (r: bool)
        ensures
            r == self.spec_controller_enabled(),
    {
        get_bit32(self.0, CAM_CONTROLLER_ENABLED_BIT)
    }

    #[verifier::when_used_as_spec(spec_controller_id_format)]
    pub fn controller_id_format(&self) -> (r: IdFormat)
        ensures
            r == self.spec_controller_id_format(),
    {
        if get_bit32(self.0, CAM_CONTROLLER_FORMAT_BIT) {
            IdFormat::Uuid128bit
        } else {
            IdFormat::Id32bit
        }
    }

    #[verifier::when_used_as_spec(spec_partial_packet_impl_permitted)]
    pub fn partial_packet_impl_permitted(&self) -> (r: bool)
        ensures
            r == self.spec_partial_packet_impl_permitted(),
    {
        get_bit32(self.0, CAM_PARTIAL_BIT)
    }

    #[verifier::when_used_as_spec(spec_warnings_permitted)]
    pub fn warnings_permitted(&self) -> (r: bool)
        ensures
            r == self.spec_warnings_permitted(),
    {
        get_bit32(self.0, CAM_WARNINGS_PERMITTED_BIT)
    }

    #[verifier::when_used_as_spec(spec_action_mode)]
    pub fn action_mode(&self) -> (r: ActionMode)
        ensures
            r == self.spec_action_mode(),
    {
        let code: u32 = (self.0 >> CAM_ACTION_LO_BIT) & 3;
        if code == 1 {
            ActionMode::DryRun
        } else if code == 2 {
            ActionMode::Execute
        } else {
            ActionMode::NoAction
        }
    }

    #[verifier::when_used_as_spec(spec_validation)]
    pub fn validation(&self) -> (r: bool)
        ensures
            r == self.spec_validation(),
    {
        get_bit32(self.0, CAM_VALIDATION_BIT)
    }

    #[verifier::when_used_as_spec(spec_execution)]
    pub fn execution(&self) -> (r: bool)
        ensures
            r == self.spec_execution(),
    {
        get_bit32(self.0, CAM_EXECUTION_BIT)
    }

    #[verifier::when_used_as_spec(spec_state)]
    pub fn state(&self) -> (r: bool)
        ensures
            r == self.spec_state(),
    {
        get_bit32(self.0, CAM_STATE_BIT)
    }

    #[verifier::when_used_as_spec(spec_warning)]
    pub fn warning(&self) -> (r: bool)
        ensures
            r == self.spec_warning(),
    {
        get_bit32(self.0, CAM_WARNING_BIT)
    }

    #[verifier::when_used_as_spec(spec_error)]
    pub fn error(&self) -> (r: bool)
        ensures
            r == self.spec_error(),
    {
        get_bit32(self.0, CAM_ERROR_BIT)
    }

    /// Set one flag bit, leaving every other bit alone.
    fn set_flag(&mut self, i: u32)
        requires
            i < 32,
        ensures
            final(self).0 == old(self).0 | (1u32 << i),
            forall|j: u32| j < 32 ==> #[trigger] bit(final(self).0, j) == (j == i || bit(
                old(self).0,
                j,
            )),
    {
        self.0 = set_bit32(self.0, i);
    }

    /// Clear one flag bit, leaving every other bit alone.
    fn clear_flag(&mut self, i: u32)
        requires
            i < 32,
        ensures
            final(self).0 == old(self).0 & !(1u32 << i),
            forall|j: u32| j < 32 ==> #[trigger] bit(final(self).0, j) == (j != i && bit(
                old(self).0,
                j,
            )),
    {
        self.0 = clear_bit32(self.0, i);
    }

    /// Mark a controllee identifier as present.
    pub fn enable_controllee(&mut self)
        ensures
            final(self).0 == old(self).0 | (1u32 << CAM_CONTROLLEE_ENABLED_BIT),
            forall|j: u32| j < 32 ==> #[trigger] bit(final(self).0, j) == (j
                == CAM_CONTROLLEE_ENABLED_BIT || bit(old(self).0, j)),
    {
        self.set_flag(CAM_CONTROLLEE_ENABLED_BIT);
    }

    /// Mark the controllee identifier as absent.
    pub fn disable_controllee(&mut self)
        ensures
            final(self).0 == old(self).0 & !(1u32 << CAM_CONTROLLEE_ENABLED_BIT),
            forall|j: u32| j < 32 ==> #[trigger] bit(final(self).0, j) == (j
                != CAM_CONTROLLEE_ENABLED_BIT && bit(old(self).0, j)),
    {
        self.clear_flag(CAM_CONTROLLEE_ENABLED_BIT);
    }

    /// Choose between the 32-bit and 128-bit controllee identifier.
    pub fn set_controllee_id_format(&mut self, f: IdFormat)
        ensures
            final(self).spec_controllee_id_format() == f,
            forall|j: u32| j < 32 && j != CAM_CONTROLLEE_FORMAT_BIT ==> #[trigger] bit(
                final(self).0,
                j,
            ) == bit(old(self).0, j),
    {
        match f {
            IdFormat::Uuid128bit => self.set_flag(CAM_CONTROLLEE_FORMAT_BIT),
            IdFormat::Id32bit => self.clear_flag(CAM_CONTROLLEE_FORMAT_BIT),
        }
    }

    /// Mark a controller identifier as present.
    pub fn enable_controller(&mut self)
        ensures
            final(self).0 == old(self).0 | (1u32 << CAM_CONTROLLER_ENABLED_BIT),
            forall|j: u32| j < 32 ==> #[trigger] bit(final(self).0, j) == (j
                == CAM_CONTROLLER_ENABLED_BIT || bit(old(self).0, j)),
    {
        self.set_flag(CAM_CONTROLLER_ENABLED_BIT);
    }

    /// Mark the controller identifier as absent.
    pub fn disable_controller(&mut self)
        ensures
            final(self).0 == old(self).0 & !(1u32 << CAM_CONTROLLER_ENABLED_BIT),
            forall|j: u32| j < 32 ==> #[trigger] bit(final(self).0, j) == (j
                != CAM_CONTROLLER_ENABLED_BIT && bit(old(self).0, j)),
    {
        self.clear_flag(CAM_CONTROLLER_ENABLED_BIT);
    }

    /// Choose between the 32-bit and 128-bit controller identifier.
    pub fn set_controller_id_format(&mut self, f: IdFormat)
        ensures
            final(self).spec_controller_id_format() == f,
            forall|j: u32| j < 32 && j != CAM_CONTROLLER_FORMAT_BIT ==> #[trigger] bit(
                final(self).0,
                j,
            ) == bit(old(self).0, j),
    {
        match f {
            IdFormat::Uuid128bit => self.set_flag(CAM_CONTROLLER_FORMAT_BIT),
            IdFormat::Id32bit => self.clear_flag(CAM_CONTROLLER_FORMAT_BIT),
        }
    }

    /// Permit partial implementation of the packet.
    pub fn set_partial_packet_impl_permitted(&mut self)
        ensures
            final(self).0 == old(self).0 | (1u32 << CAM_PARTIAL_BIT),
            forall|j: u32| j < 32 ==> #[trigger] bit(final(self).0, j) == (j == CAM_PARTIAL_BIT
                || bit(old(self).0, j)),
    {
        self.set_flag(CAM_PARTIAL_BIT);
    }

    /// Permit execution despite warnings.
    pub fn set_warnings_permitted(&mut self)
        ensures
            final(self).0 == old(self).0 | (1u32 << CAM_WARNINGS_PERMITTED_BIT),
            forall|j: u32| j < 32 ==> #[trigger] bit(final(self).0, j) == (j
                == CAM_WARNINGS_PERMITTED_BIT || bit(old(self).0, j)),
    {
        self.set_flag(CAM_WARNINGS_PERMITTED_BIT);
    }

    /// Write the two-bit action-mode field, leaving all other bits
    /// alone.
    pub fn set_action_mode(&mut self, m: ActionMode)
        ensures
            final(self).spec_action_mode() == m,
            forall|j: u32| j < 32 && j != CAM_ACTION_LO_BIT && j != CAM_ACTION_LO_BIT + 1
                ==> #[trigger] bit(final(self).0, j) == bit(old(self).0, j),
    {
        let code: u32 = match m {
            ActionMode::NoAction => 0,
            ActionMode::DryRun => 1,
            ActionMode::Execute => 2,
        };
        let w = self.0;
        let r: u32 = (w & !(3u32 << CAM_ACTION_LO_BIT)) | (code << CAM_ACTION_LO_BIT);
        proof {
            lemma_action_field(w, code);
        }
        self.0 = r;
    }

    /// Request (or mark) a validation acknowledgement.
    pub fn set_validation(&mut self)
        ensures
            final(self).0 == old(self).0 | (1u32 << CAM_VALIDATION_BIT),
            forall|j: u32| j < 32 ==> #[trigger] bit(final(self).0, j) == (j == CAM_VALIDATION_BIT
                || bit(old(self).0, j)),
    {
        self.set_flag(CAM_VALIDATION_BIT);
    }

    /// Request (or mark) an execution acknowledgement.
    pub fn set_execution(&mut self)
        ensures
            final(self).0 == old(self).0 | (1u32 << CAM_EXECUTION_BIT),
            forall|j: u32| j < 32 ==> #[trigger] bit(final(self).0, j) == (j == CAM_EXECUTION_BIT
                || bit(old(self).0, j)),
    {
        self.set_flag(CAM_EXECUTION_BIT);
    }

    /// Request (or mark) a query-state acknowledgement.
    pub fn set_state(&mut self)
        ensures
            final(self).0 == old(self).0 | (1u32 << CAM_STATE_BIT),
            forall|j: u32| j < 32 ==> #[trigger] bit(final(self).0, j) == (j == CAM_STATE_BIT
                || bit(old(self).0, j)),
    {
        self.set_flag(CAM_STATE_BIT);
    }

    /// Request warnings (on an ACK, mark the warning bank present).
    pub fn set_warning(&mut self)
        ensures
            final(self).0 == old(self).0 | (1u32 << CAM_WARNING_BIT),
            forall|j: u32| j < 32 ==> #[trigger] bit(final(self).0, j) == (j == CAM_WARNING_BIT
                || bit(old(self).0, j)),
    {
        self.set_flag(CAM_WARNING_BIT);
    }

    /// Request errors (on an ACK, mark the error bank present).
    pub fn set_error(&mut self)
        ensures
            final(self).0 == old(self).0 | (1u32 << CAM_ERROR_BIT),
            forall|j: u32| j < 32 ==> #[trigger] bit(final(self).0, j) == (j == CAM_ERROR_BIT
                || bit(old(self).0, j)),
    {
        self.set_flag(CAM_ERROR_BIT);
    }
}

/// Writing the two action-mode bits changes nothing else and reads
/// back as written.
proof fn lemma_action_field(w: u32, code: u32)
    requires
        code <= 2,
    ensures
        (((w & !(3u32 << 23)) | (code << 23)) >> 23) & 3 == code,
        forall|j: u32|
            j < 32 && j != 23 && j != 24 ==> #[trigger] bit(
                (w & !(3u32 << 23)) | (code << 23),
                j,
            ) == bit(w, j),
{
    let r = (w & !(3u32 << 23)) | (code << 23);
    assert((r >> 23) & 3 == code) by (bit_vector)
        requires
            r == (w & !(3u32 << 23)) | (code << 23),
            code <= 2,
    ;
    assert forall|j: u32| j < 32 && j != 23 && j != 24 implies #[trigger] bit(r, j) == bit(w, j) by {
        assert(r & (1u32 << j) == w & (1u32 << j)) by (bit_vector)
            requires
                r == (w & !(3u32 << 23)) | (code << 23),
                code <= 2,
                j < 32,
                j != 23,
                j != 24,
        ;
    }
}

} // verus!
