//! Command packets: the CAM word, the message identifier, the
//! optional controllee and controller identifiers, and the payload
//! variant the header and CAM select.

use vstd::prelude::*;

use crate::ack::Ack;
use crate::bits::{bit, take_u128, take_word, u128_words};
use crate::cam::{ControlAckMode, IdFormat};
use crate::cif_payload::{Cancellation, CifPayload};
use crate::errors::VitaError;
use crate::header::Header;

verus! {

/// The payload variant of a command packet, selected by the header's
/// acknowledgement and cancellation bits together with the CAM.
#[derive(Clone, Debug, PartialEq, Eq)]
pub enum CommandPayload {
    /// Payload of a control packet.
    Control(CifPayload),
    /// Payload of a cancellation packet.
    Cancellation(Cancellation),
    /// Payload of a validation acknowledgement.
    ValidationAck(Ack),
    /// Payload of an execution acknowledgement.
    ExecAck(Ack),
    /// Payload of a query acknowledgement.
    QueryAck(CifPayload),
}

impl CommandPayload {
    /// The wire words of the chosen variant.
    pub open spec fn words(self) -> Seq<u32> {
        match self {
            CommandPayload::Control(p) => p.words(),
            CommandPayload::Cancellation(p) => p.words(),
            CommandPayload::ValidationAck(p) => p.words(),
            CommandPayload::ExecAck(p) => p.words(),
            CommandPayload::QueryAck(p) => p.words(),
        }
    }

    /// The variant matches the header and CAM that select it, and its
    /// contents are well-formed. `ack` and `cancellation` are the
    /// header's command-indicator bits.
    pub open spec fn wf(self, ack: bool, cancellation: bool, cam: ControlAckMode) -> bool {
        match self {
            CommandPayload::Control(p) => !ack && !cancellation && p.wf(),
            CommandPayload::Cancellation(p) => !ack && cancellation && p.wf(),
            CommandPayload::ValidationAck(p) => ack && cam.spec_validation()
                && !cam.spec_execution() && !cam.spec_state() && p.wf(
                cam.spec_warning(),
                cam.spec_error(),
            ),
            CommandPayload::ExecAck(p) => ack && !cam.spec_validation() && cam.spec_execution()
                && !cam.spec_state() && p.wf(cam.spec_warning(), cam.spec_error()),
            CommandPayload::QueryAck(p) => ack && !cam.spec_validation() && !cam.spec_execution()
                && cam.spec_state() && p.wf(),
        }
    }

    /// What serialization needs of the stored contents.
    pub open spec fn storage_ok(self) -> bool {
        match self {
            CommandPayload::Control(p) => p.fields0.storage_ok() && p.fields1.storage_ok(),
            CommandPayload::Cancellation(_) => true,
            CommandPayload::ValidationAck(p) => p.storage_ok(),
            CommandPayload::ExecAck(p) => p.storage_ok(),
            CommandPayload::QueryAck(p) => p.fields0.storage_ok() && p.fields1.storage_ok(),
        }
    }

    /// The payload's length in 32-bit words.
    pub fn size_words(&self) -> (r: u16)
        requires
            self.storage_ok(),
            self.words().len() <= 0xFFFF,
        ensures
            r == self.words().len(),
    {
        let mut tmp: Vec<u32> = Vec::new();
        match self {
            CommandPayload::Control(p) => p.encode(&mut tmp),
            CommandPayload::Cancellation(p) => p.encode(&mut tmp),
            CommandPayload::ValidationAck(p) => p.encode(&mut tmp),
            CommandPayload::ExecAck(p) => p.encode(&mut tmp),
            CommandPayload::QueryAck(p) => p.encode(&mut tmp),
        }
        tmp.len() as u16
    }

    /// A reference to the control payload, on control packets alone.
    pub fn control(&self) -> (r: Result<&CifPayload, VitaError>)
        ensures
            self is Control ==> (r matches Ok(p) && *p == self->Control_0),
            !(self is Control) ==> r == Err::<&CifPayload, VitaError>(VitaError::ControlOnly),
    {
        match self {
            CommandPayload::Control(p) => Ok(p),
            _ => Err(VitaError::ControlOnly),
        }
    }

    /// A mutable reference to the control payload, on control packets
    /// alone.
    pub fn control_mut(&mut self) -> (r: Result<&mut CifPayload, VitaError>)
        ensures
            *old(self) is Control ==> (r matches Ok(p) && *p == old(self)->Control_0 && *final(self)
                == CommandPayload::Control(*final(p))),
            !(*old(self) is Control) ==> r == Err::<&mut CifPayload, VitaError>(
                VitaError::ControlOnly,
            ) && *final(self) == *old(self),
    {
        match self {
            CommandPayload::Control(p) => Ok(p),
            _ => Err(VitaError::ControlOnly),
        }
    }

    /// A reference to the cancellation payload, on cancellation
    /// packets alone.
    pub fn cancellation(&self) -> (r: Result<&Cancellation, VitaError>)
        ensures
            self is Cancellation ==> (r matches Ok(p) && *p == self->Cancellation_0),
            !(self is Cancellation) ==> r == Err::<&Cancellation, VitaError>(
                VitaError::CancellationOnly,
            ),
    {
        match self {
            CommandPayload::Cancellation(p) => Ok(p),
            _ => Err(VitaError::CancellationOnly),
        }
    }

    /// A mutable reference to the cancellation payload, on
    /// cancellation packets alone.
    pub fn cancellation_mut(&mut self) -> (r: Result<&mut Cancellation, VitaError>)
        ensures
            *old(self) is Cancellation ==> (r matches Ok(p) && *p == old(self)->Cancellation_0
                && *final(self) == CommandPayload::Cancellation(*final(p))),
            !(*old(self) is Cancellation) ==> r == Err::<&mut Cancellation, VitaError>(
                VitaError::CancellationOnly,
            ) && *final(self) == *old(self),
    {
        match self {
            CommandPayload::Cancellation(p) => Ok(p),
            _ => Err(VitaError::CancellationOnly),
        }
    }

    /// A reference to the validation-ACK payload, on validation
    /// acknowledgements alone.
    pub fn validation_ack(&self) -> (r: Result<&Ack, VitaError>)
        ensures
            self is ValidationAck ==> (r matches Ok(p) && *p == self->ValidationAck_0),
            !(self is ValidationAck) ==> r == Err::<&Ack, VitaError>(VitaError::ValidationAckOnly),
    {
        match self {
            CommandPayload::ValidationAck(p) => Ok(p),
            _ => Err(VitaError::ValidationAckOnly),
        }
    }

    /// A mutable reference to the validation-ACK payload, on
    /// validation acknowledgements alone.
    pub fn validation_ack_mut(&mut self) -> (r: Result<&mut Ack, VitaError>)
        ensures
            *old(self) is ValidationAck ==> (r matches Ok(p) && *p == old(self)->ValidationAck_0
                && *final(self) == CommandPayload::ValidationAck(*final(p))),
            !(*old(self) is ValidationAck) ==> r == Err::<&mut Ack, VitaError>(
                VitaError::ValidationAckOnly,
            ) && *final(self) == *old(self),
    {
        match self {
            CommandPayload::ValidationAck(p) => Ok(p),
            _ => Err(VitaError::ValidationAckOnly),
        }
    }

    /// A reference to the execution-ACK payload, on execution
    /// acknowledgements alone.
    pub fn exec_ack(&self) -> (r: Result<&Ack, VitaError>)
        ensures
            self is ExecAck ==> (r matches Ok(p) && *p == self->ExecAck_0),
            !(self is ExecAck) ==> r == Err::<&Ack, VitaError>(VitaError::ExecAckOnly),
    {
        match self {
            CommandPayload::ExecAck(p) => Ok(p),
            _ => Err(VitaError::ExecAckOnly),
        }
    }

    /// A mutable reference to the execution-ACK payload, on execution
    /// acknowledgements alone.
    pub fn exec_ack_mut(&mut self) -> (r: Result<&mut Ack, VitaError>)
        ensures
            *old(self) is ExecAck ==> (r matches Ok(p) && *p == old(self)->ExecAck_0 && *final(self)
                == CommandPayload::ExecAck(*final(p))),
            !(*old(self) is ExecAck) ==> r == Err::<&mut Ack, VitaError>(VitaError::ExecAckOnly)
                && *final(self) == *old(self),
    {
        match self {
            CommandPayload::ExecAck(p) => Ok(p),
            _ => Err(VitaError::ExecAckOnly),
        }
    }

    /// A reference to the query-ACK payload, on query acknowledgements
    /// alone.
    pub fn query_ack(&self) -> (r: Result<&CifPayload, VitaError>)
        ensures
            self is QueryAck ==> (r matches Ok(p) && *p == self->QueryAck_0),
            !(self is QueryAck) ==> r == Err::<&CifPayload, VitaError>(VitaError::QueryAckOnly),
    {
        match self {
            CommandPayload::QueryAck(p) => Ok(p),
            _ => Err(VitaError::QueryAckOnly),
        }
    }

    /// A mutable reference to the query-ACK payload, on query
    /// acknowledgements alone.
    pub fn query_ack_mut(&mut self) -> (r: Result<&mut CifPayload, VitaError>)
        ensures
            *old(self) is QueryAck ==> (r matches Ok(p) && *p == old(self)->QueryAck_0
                && *final(self) == CommandPayload::QueryAck(*final(p))),
            !(*old(self) is QueryAck) ==> r == Err::<&mut CifPayload, VitaError>(
                VitaError::QueryAckOnly,
            ) && *final(self) == *old(self),
    {
        match self {
            CommandPayload::QueryAck(p) => Ok(p),
            _ => Err(VitaError::QueryAckOnly),
        }
    }
}

/// How many acknowledgement kinds a CAM word selects.
pub open spec fn ack_kind_count(cam: ControlAckMode) -> int {
    (if cam.spec_validation() {
        1int
    } else {
        0int
    }) + (if cam.spec_execution() {
        1int
    } else {
        0int
    }) + (if cam.spec_state() {
        1int
    } else {
        0int
    })
}

/// How many words the identifier slots a CAM word declares occupy.
pub open spec fn id_words_len(cam: ControlAckMode) -> int {
    (if cam.spec_controllee_enabled() {
        if cam.spec_controllee_id_format() == IdFormat::Uuid128bit {
            4int
        } else {
            1int
        }
    } else {
        0int
    }) + (if cam.spec_controller_enabled() {
        if cam.spec_controller_id_format() == IdFormat::Uuid128bit {
            4int
        } else {
            1int
        }
    } else {
        0int
    })
}

/// A command packet body: CAM word, message ID, optional controllee
/// and controller identifiers, and the payload variant.
#[derive(Clone, Debug, PartialEq, Eq)]
pub struct Command {
    /// The control/acknowledgement mode word.
    pub cam: ControlAckMode,
    /// The 32-bit message identifier.
    pub message_id: u32,
    /// The 32-bit controllee identifier, exclusive with the UUID form.
    pub controllee_id: Option<u32>,
    /// The 128-bit controllee UUID, exclusive with the 32-bit form.
    pub controllee_uuid: Option<u128>,
    /// The 32-bit controller identifier, exclusive with the UUID form.
    pub controller_id: Option<u32>,
    /// The 128-bit controller UUID, exclusive with the 32-bit form.
    pub controller_uuid: Option<u128>,
    /// The payload variant.
    pub command_payload: CommandPayload,
}

impl Command {
    /// The two identifier forms of each party are mutually exclusive.
    pub open spec fn wf_addressing(self) -> bool {
        &&& self.controllee_id is Some ==> self.controllee_uuid is None
        &&& self.controller_id is Some ==> self.controller_uuid is None
    }

    /// The CAM addressing flags agree with the identifier slots.
    pub open spec fn wf_cam_addressing(self) -> bool {
        &&& self.controllee_id is Some <==> (self.cam.spec_controllee_enabled()
            && self.cam.spec_controllee_id_format() == IdFormat::Id32bit)
        &&& self.controllee_uuid is Some <==> (self.cam.spec_controllee_enabled()
            && self.cam.spec_controllee_id_format() == IdFormat::Uuid128bit)
        &&& self.controller_id is Some <==> (self.cam.spec_controller_enabled()
            && self.cam.spec_controller_id_format() == IdFormat::Id32bit)
        &&& self.controller_uuid is Some <==> (self.cam.spec_controller_enabled()
            && self.cam.spec_controller_id_format() == IdFormat::Uuid128bit)
    }

    /// Identifier exclusivity, CAM agreement, and a payload variant
    /// that matches the header bits and the CAM.
    pub open spec fn wf(self, ack: bool, cancellation: bool) -> bool {
        &&& self.wf_addressing()
        &&& self.wf_cam_addressing()
        &&& self.command_payload.wf(ack, cancellation, self.cam)
    }

    /// The wire words of an optional 32-bit identifier.
    pub open spec fn opt_id_words(v: Option<u32>) -> Seq<u32> {
        match v {
            Option::Some(x) => seq![x],
            Option::None => Seq::empty(),
        }
    }

    /// The wire words of an optional 128-bit UUID.
    pub open spec fn opt_uuid_words(v: Option<u128>) -> Seq<u32> {
        match v {
            Option::Some(x) => u128_words(x),
            Option::None => Seq::empty(),
        }
    }

    /// The wire words: CAM, message ID, identifiers, then the payload.
    pub open spec fn words(self) -> Seq<u32> {
        seq![self.cam.0, self.message_id] + Self::opt_id_words(self.controllee_id)
            + Self::opt_uuid_words(self.controllee_uuid) + Self::opt_id_words(self.controller_id)
            + Self::opt_uuid_words(self.controller_uuid) + self.command_payload.words()
    }

    /// A command body with an all-clear CAM, no identifiers, and the
    /// given payload variant.
    fn new_with_payload(cam: ControlAckMode, payload: CommandPayload) -> (r: Command)
        ensures
            r == (Command {
                cam,
                message_id: 0,
                controllee_id: Option::None,
                controllee_uuid: Option::None,
                controller_id: Option::None,
                controller_uuid: Option::None,
                command_payload: payload,
            }),
    {
        Command {
            cam,
            message_id: 0,
            controllee_id: Option::None,
            controllee_uuid: Option::None,
            controller_id: Option::None,
            controller_uuid: Option::None,
            command_payload: payload,
        }
    }

    /// A new, empty control body: an all-clear CAM, message ID zero,
    /// no identifiers, and an empty control payload.
    pub fn new_control() -> (r: Command)
        ensures
            r.cam.0 == 0,
            r.message_id == 0,
            r.controllee_id is None,
            r.controllee_uuid is None,
            r.controller_id is None,
            r.controller_uuid is None,
            (r.command_payload matches CommandPayload::Control(p) && p.is_empty() && p.wf()
                && p.words() == seq![0u32]),
            r.wf(false, false),
    {
        let r = Self::new_with_payload(
            ControlAckMode(0),
            CommandPayload::Control(CifPayload::new()),
        );
        proof {
            assert forall|j: u32| j < 32 implies !crate::bits::bit(0u32, j) by {
                crate::bits::lemma_bit_zero(j);
            }
        }
        r
    }

    /// A new, empty cancellation body: an all-clear CAM, message ID
    /// zero, no identifiers, and a cancellation naming no fields.
    pub fn new_cancellation() -> (r: Command)
        ensures
            r.cam.0 == 0,
            r.message_id == 0,
            r.controllee_id is None,
            r.controllee_uuid is None,
            r.controller_id is None,
            r.controller_uuid is None,
            r.command_payload == CommandPayload::Cancellation(
                Cancellation {
                    cif0: crate::cif::Cif0(0),
                    cif1: Option::None,
                    cif2: Option::None,
                    cif3: Option::None,
                    cif7: Option::None,
                },
            ),
            r.wf(false, true),
    {
        let cancel = Cancellation {
            cif0: crate::cif::Cif0(0),
            cif1: Option::None,
            cif2: Option::None,
            cif3: Option::None,
            cif7: Option::None,
        };
        proof {
            crate::bits::lemma_bit_zero(1);
            crate::bits::lemma_bit_zero(2);
            crate::bits::lemma_bit_zero(3);
            crate::bits::lemma_bit_zero(7);
        }
        let r = Self::new_with_payload(ControlAckMode(0), CommandPayload::Cancellation(cancel));
        proof {
            assert forall|j: u32| j < 32 implies !crate::bits::bit(0u32, j) by {
                crate::bits::lemma_bit_zero(j);
            }
        }
        r
    }

    /// A new, empty validation-acknowledgement body: the CAM selects the
    /// validation kind alone, the message ID is zero, no identifiers are
    /// set, and the payload is empty.
    pub fn new_validation_ack() -> (r: Command)
        ensures
            r.cam.0 == 1u32 << crate::cam::CAM_VALIDATION_BIT,
            forall|j: u32| j < 32 ==> #[trigger] bit(r.cam.0, j) == (j == crate::cam::CAM_VALIDATION_BIT),
            r.message_id == 0,
            r.controllee_id is None,
            r.controllee_uuid is None,
            r.controller_id is None,
            r.controller_uuid is None,
            (r.command_payload matches CommandPayload::ValidationAck(a) && a.is_empty() && a.wf(
                false,
                false,
            ) && a.words() == Seq::<u32>::empty()),
            r.wf(true, false),
    {
        let mut cam = ControlAckMode(0);
        cam.set_validation();
        let r = Self::new_with_payload(cam, CommandPayload::ValidationAck(Ack::new()));
        proof {
            assert forall|j: u32| j < 32 implies !crate::bits::bit(0u32, j) by {
                crate::bits::lemma_bit_zero(j);
            }
            crate::bits::lemma_zero_or(1u32 << crate::cam::CAM_VALIDATION_BIT);
        }
        r
    }

    /// A new, empty execution-acknowledgement body: the CAM selects the
    /// execution kind alone, the message ID is zero, no identifiers are
    /// set, and the payload is empty.
    pub fn new_exec_ack() -> (r: Command)
        ensures
            r.cam.0 == 1u32 << crate::cam::CAM_EXECUTION_BIT,
            forall|j: u32| j < 32 ==> #[trigger] bit(r.cam.0, j) == (j == crate::cam::CAM_EXECUTION_BIT),
            r.message_id == 0,
            r.controllee_id is None,
            r.controllee_uuid is None,
            r.controller_id is None,
            r.controller_uuid is None,
            (r.command_payload matches CommandPayload::ExecAck(a) && a.is_empty() && a.wf(
                false,
                false,
            ) && a.words() == Seq::<u32>::empty()),
            r.wf(true, false),
    {
        let mut cam = ControlAckMode(0);
        cam.set_execution();
        let r = Self::new_with_payload(cam, CommandPayload::ExecAck(Ack::new()));
        proof {
            assert forall|j: u32| j < 32 implies !crate::bits::bit(0u32, j) by {
                crate::bits::lemma_bit_zero(j);
            }
            crate::bits::lemma_zero_or(1u32 << crate::cam::CAM_EXECUTION_BIT);
        }
        r
    }

    /// A new, empty query-acknowledgement body: the CAM selects the
    /// query kind alone, the message ID is zero, no identifiers are
    /// set, and the payload is empty.
    pub fn new_query_ack() -> (r: Command)
        ensures
            r.cam.0 == 1u32 << crate::cam::CAM_STATE_BIT,
            forall|j: u32| j < 32 ==> #[trigger] bit(r.cam.0, j) == (j == crate::cam::CAM_STATE_BIT),
            r.message_id == 0,
            r.controllee_id is None,
            r.controllee_uuid is None,
            r.controller_id is None,
            r.controller_uuid is None,
            (r.command_payload matches CommandPayload::QueryAck(a) && a.is_empty() && a.wf()
                && a.words() == seq![0u32]),
            r.wf(true, false),
    {
        let mut cam = ControlAckMode(0);
        cam.set_state();
        let r = Self::new_with_payload(cam, CommandPayload::QueryAck(CifPayload::new()));
        proof {
            assert forall|j: u32| j < 32 implies !crate::bits::bit(0u32, j) by {
                crate::bits::lemma_bit_zero(j);
            }
            crate::bits::lemma_zero_or(1u32 << crate::cam::CAM_STATE_BIT);
        }
        r
    }

    /// The command body's length in 32-bit words.
    pub fn size_words(&self) -> (r: u16)
        requires
            self.command_payload.storage_ok(),
            self.words().len() <= 0xFFFF,
        ensures
            r == self.words().len(),
    {
        let mut tmp: Vec<u32> = Vec::new();
        self.encode(&mut tmp);
        tmp.len() as u16
    }

    /// The packet message ID.
    pub fn message_id(&self) -> (r: u32)
        ensures
            r == self.message_id,
    {
        self.message_id
    }

    /// Set the packet message ID.
    pub fn set_message_id(&mut self, message_id: u32)
        ensures
            *final(self) == (Command { message_id, ..*old(self) }),
    {
        self.message_id = message_id;
    }

    /// The packet's control/acknowledgement mode word.
    pub fn cam(&self) -> (r: ControlAckMode)
        ensures
            r == self.cam,
    {
        self.cam
    }

    /// Replace the packet's control/acknowledgement mode word.
    pub fn set_cam(&mut self, mode: ControlAckMode)
        ensures
            *final(self) == (Command { cam: mode, ..*old(self) }),
    {
        self.cam = mode;
    }

    /// The controllee identifier.
    pub fn controllee_id(&self) -> (r: Option<u32>)
        ensures
            r == self.controllee_id,
    {
        self.controllee_id
    }

    /// The controllee UUID.
    pub fn controllee_uuid(&self) -> (r: Option<u128>)
        ensures
            r == self.controllee_uuid,
    {
        self.controllee_uuid
    }

    /// The controller identifier.
    pub fn controller_id(&self) -> (r: Option<u32>)
        ensures
            r == self.controller_id,
    {
        self.controller_id
    }

    /// The controller UUID.
    pub fn controller_uuid(&self) -> (r: Option<u128>)
        ensures
            r == self.controller_uuid,
    {
        self.controller_uuid
    }

    /// A reference to the payload variant.
    pub fn payload(&self) -> (r: &CommandPayload)
        ensures
            r == self.command_payload,
    {
        &self.command_payload
    }

    /// A mutable reference to the payload variant.
    pub fn payload_mut(&mut self) -> (r: &mut CommandPayload)
        ensures
            *r == old(self).command_payload,
            *final(self) == (Command { command_payload: *final(r), ..*old(self) }),
    {
        &mut self.command_payload
    }

    /// Set or clear the 32-bit controllee identifier. Fails, leaving
    /// the packet unchanged, exactly when an identifier is offered
    /// while the UUID form is set. Clearing disables the controllee
    /// unless the UUID form is still set.
    pub fn set_controllee_id(&mut self, id: Option<u32>) -> (r: Result<(), VitaError>)
        ensures
            id is Some && old(self).controllee_uuid is Some ==> r == Err::<(), VitaError>(
                VitaError::TriedIdWhenUuidSet,
            ) && *final(self) == *old(self),
            !(id is Some && old(self).controllee_uuid is Some) ==> r == Ok::<(), VitaError>(())
                && final(self).controllee_id == id && final(self).controllee_uuid == old(self).controllee_uuid && final(self).controller_id == old(self).controller_id && final(self).controller_uuid == old(self).controller_uuid && final(self).message_id == old(self).message_id && final(self).command_payload == old(self).command_payload,
            r is Ok && id is Some ==> final(self).cam.spec_controllee_enabled() && final(self).cam.spec_controllee_id_format() == IdFormat::Id32bit,
            r is Ok && id is None && old(self).controllee_uuid is None ==> !final(self).cam.spec_controllee_enabled(),
            r is Ok && id is None && old(self).controllee_uuid is Some ==> final(self).cam == old(self).cam,
            r is Ok && old(self).wf_cam_addressing() ==> final(self).wf_cam_addressing(),
            r is Ok && old(self).wf_addressing() && id is None ==> final(self).wf_addressing(),
            id is Some && old(self).controllee_uuid is None ==> final(self).wf_addressing() == old(self).wf_addressing(),
    {
        if id.is_some() && self.controllee_uuid.is_some() {
            return Err(VitaError::TriedIdWhenUuidSet);
        }
        self.controllee_id = id;
        if id.is_some() {
            self.cam.enable_controllee();
            self.cam.set_controllee_id_format(IdFormat::Id32bit);
        } else if self.controllee_uuid.is_none() {
            self.cam.disable_controllee();
        }
        Ok(())
    }

    /// Set or clear the 128-bit controllee UUID. Fails, leaving the
    /// packet unchanged, exactly when a UUID is offered while the
    /// 32-bit form is set.
    pub fn set_controllee_uuid(&mut self, uuid: Option<u128>) -> (r: Result<(), VitaError>)
        ensures
            uuid is Some && old(self).controllee_id is Some ==> r == Err::<(), VitaError>(
                VitaError::TriedUuidWhenIdSet,
            ) && *final(self) == *old(self),
            !(uuid is Some && old(self).controllee_id is Some) ==> r == Ok::<(), VitaError>(())
                && final(self).controllee_uuid == uuid && final(self).controllee_id == old(self).controllee_id && final(self).controller_id == old(self).controller_id && final(self).controller_uuid == old(self).controller_uuid && final(self).message_id == old(self).message_id && final(self).command_payload == old(self).command_payload,
            r is Ok && uuid is Some ==> final(self).cam.spec_controllee_enabled() && final(self).cam.spec_controllee_id_format() == IdFormat::Uuid128bit,
            r is Ok && uuid is None && old(self).controllee_id is None ==> !final(self).cam.spec_controllee_enabled(),
            r is Ok && old(self).wf_cam_addressing() ==> final(self).wf_cam_addressing(),
    {
        if uuid.is_some() && self.controllee_id.is_some() {
            return Err(VitaError::TriedUuidWhenIdSet);
        }
        self.controllee_uuid = uuid;
        if uuid.is_some() {
            self.cam.enable_controllee();
            self.cam.set_controllee_id_format(IdFormat::Uuid128bit);
        } else if self.controllee_id.is_none() {
            self.cam.disable_controllee();
        }
        Ok(())
    }

    /// Set or clear the 32-bit controller identifier. Fails, leaving
    /// the packet unchanged, exactly when an identifier is offered
    /// while the UUID form is set.
    pub fn set_controller_id(&mut self, id: Option<u32>) -> (r: Result<(), VitaError>)
        ensures
            id is Some && old(self).controller_uuid is Some ==> r == Err::<(), VitaError>(
                VitaError::TriedIdWhenUuidSet,
            ) && *final(self) == *old(self),
            !(id is Some && old(self).controller_uuid is Some) ==> r == Ok::<(), VitaError>(())
                && final(self).controller_id == id && final(self).controller_uuid == old(self).controller_uuid && final(self).controllee_id == old(self).controllee_id && final(self).controllee_uuid == old(self).controllee_uuid && final(self).message_id == old(self).message_id && final(self).command_payload == old(self).command_payload,
            r is Ok && id is Some ==> final(self).cam.spec_controller_enabled() && final(self).cam.spec_controller_id_format() == IdFormat::Id32bit,
            r is Ok && id is None && old(self).controller_uuid is None ==> !final(self).cam.spec_controller_enabled(),
            r is Ok && old(self).wf_cam_addressing() ==> final(self).wf_cam_addressing(),
    {
        if id.is_some() && self.controller_uuid.is_some() {
            return Err(VitaError::TriedIdWhenUuidSet);
        }
        self.controller_id = id;
        if id.is_some() {
            self.cam.enable_controller();
            self.cam.set_controller_id_format(IdFormat::Id32bit);
        } else if self.controller_uuid.is_none() {
            self.cam.disable_controller();
        }
        Ok(())
    }

    /// Set or clear the 128-bit controller UUID. Fails, leaving the
    /// packet unchanged, exactly when a UUID is offered while the
    /// 32-bit form is set.
    pub fn set_controller_uuid(&mut self, uuid: Option<u128>) -> (r: Result<(), VitaError>)
        ensures
            uuid is Some && old(self).controller_id is Some ==> r == Err::<(), VitaError>(
                VitaError::TriedUuidWhenIdSet,
            ) && *final(self) == *old(self),
            !(uuid is Some && old(self).controller_id is Some) ==> r == Ok::<(), VitaError>(())
                && final(self).controller_uuid == uuid && final(self).controller_id == old(self).controller_id && final(self).controllee_id == old(self).controllee_id && final(self).controllee_uuid == old(self).controllee_uuid && final(self).message_id == old(self).message_id && final(self).command_payload == old(self).command_payload,
            r is Ok && uuid is Some ==> final(self).cam.spec_controller_enabled() && final(self).cam.spec_controller_id_format() == IdFormat::Uuid128bit,
            r is Ok && uuid is None && old(self).controller_id is None ==> !final(self).cam.spec_controller_enabled(),
            r is Ok && old(self).wf_cam_addressing() ==> final(self).wf_cam_addressing(),
    {
        if uuid.is_some() && self.controller_id.is_some() {
            return Err(VitaError::TriedUuidWhenIdSet);
        }
        self.controller_uuid = uuid;
        if uuid.is_some() {
            self.cam.enable_controller();
            self.cam.set_controller_id_format(IdFormat::Uuid128bit);
        } else if self.controller_id.is_none() {
            self.cam.disable_controller();
        }
        Ok(())
    }

    /// Append the command body's wire words.
    #[verifier::rlimit(100)]
    #[verifier::spinoff_prover]
    pub fn encode(&self, out: &mut Vec<u32>)
        requires
            self.command_payload.storage_ok(),
        ensures
            final(out)@ == old(out)@ + self.words(),
    {
        out.push(self.cam.0);
        out.push(self.message_id);
        match &self.controllee_id {
            Option::Some(x) => out.push(*x),
            Option::None => (),
        }
        match &self.controllee_uuid {
            Option::Some(x) => crate::bits::push_u128(out, *x),
            Option::None => (),
        }
        match &self.controller_id {
            Option::Some(x) => out.push(*x),
            Option::None => (),
        }
        match &self.controller_uuid {
            Option::Some(x) => crate::bits::push_u128(out, *x),
            Option::None => (),
        }
        let ghost out_head = out@;
        match &self.command_payload {
            CommandPayload::Control(p) => p.encode(out),
            CommandPayload::Cancellation(p) => p.encode(out),
            CommandPayload::ValidationAck(p) => p.encode(out),
            CommandPayload::ExecAck(p) => p.encode(out),
            CommandPayload::QueryAck(p) => p.encode(out),
        }
        proof {
            assert(out@ == out_head + self.command_payload.words());
            assert(out@ =~= old(out)@ + self.words());
        }
    }

    /// Count the acknowledgement kinds a CAM word selects.
    fn count_ack_kinds(cam: &ControlAckMode) -> (n: u32)
        ensures
            n as int == ack_kind_count(*cam),
    {
        let mut n: u32 = 0;
        if cam.validation() {
            n = n + 1;
        }
        if cam.execution() {
            n = n + 1;
        }
        if cam.state() {
            n = n + 1;
        }
        n
    }

    /// Read one command body from the word stream. Fails with
    /// `AmbiguousAckKind` exactly when the header marks an
    /// acknowledgement whose CAM does not select exactly one of
    /// validation, execution and query state.
    #[verifier::rlimit(100)]
    #[verifier::spinoff_prover]
    pub fn parse(w: &Vec<u32>, pos: &mut usize, end: usize, header: &Header) -> (r: Result<
        Command,
        VitaError,
    >)
        requires
            *old(pos) <= end,
            end <= w@.len(),
            end <= 0xFFFF,
            header.is_command(),
        ensures
            r.is_ok() ==> *old(pos) <= *final(pos) <= end && r.unwrap().wf(
                header.indicator_26,
                header.indicator_24,
            ) && r.unwrap().words() == w@.subrange(*old(pos) as int, *final(pos) as int),
            r.is_err() ==> r == Err::<Command, VitaError>(VitaError::TruncatedPacket) || r == Err::<
                Command,
                VitaError,
            >(VitaError::AmbiguousAckKind),
            r == Err::<Command, VitaError>(VitaError::AmbiguousAckKind) <==> (header.indicator_26
                && *old(pos) + 2 + id_words_len(ControlAckMode(w@[*old(pos) as int])) <= end
                && ack_kind_count(ControlAckMode(w@[*old(pos) as int])) != 1),
    {
        let cam = ControlAckMode(take_word(w, pos, end)?);
        let message_id = take_word(w, pos, end)?;
        let controllee_id = if cam.controllee_enabled() && matches!(
            cam.controllee_id_format(),
            IdFormat::Id32bit,
        ) {
            Option::Some(take_word(w, pos, end)?)
        } else {
            Option::None
        };
        let controllee_uuid = if cam.controllee_enabled() && matches!(
            cam.controllee_id_format(),
            IdFormat::Uuid128bit,
        ) {
            Option::Some(take_u128(w, pos, end)?)
        } else {
            Option::None
        };
        let controller_id = if cam.controller_enabled() && matches!(
            cam.controller_id_format(),
            IdFormat::Id32bit,
        ) {
            Option::Some(take_word(w, pos, end)?)
        } else {
            Option::None
        };
        let controller_uuid = if cam.controller_enabled() && matches!(
            cam.controller_id_format(),
            IdFormat::Uuid128bit,
        ) {
            Option::Some(take_u128(w, pos, end)?)
        } else {
            Option::None
        };
        let ghost q_head = *pos;
        let mut p: usize = *pos;
        let is_ack = match header.is_ack_packet() {
            Result::Ok(b) => b,
            Result::Err(_) => false,
        };
        let is_cancel = match header.is_cancellation_packet() {
            Result::Ok(b) => b,
            Result::Err(_) => false,
        };
        let command_payload = if is_ack {
            let kinds = Self::count_ack_kinds(&cam);
            if kinds != 1 {
                return Err(VitaError::AmbiguousAckKind);
            }
            if cam.validation() {
                CommandPayload::ValidationAck(
                    Ack::parse(w, &mut p, end, cam.warning(), cam.error())?,
                )
            } else if cam.execution() {
                CommandPayload::ExecAck(Ack::parse(w, &mut p, end, cam.warning(), cam.error())?)
            } else {
                CommandPayload::QueryAck(CifPayload::parse(w, &mut p, end)?)
            }
        } else if is_cancel {
            CommandPayload::Cancellation(Cancellation::parse(w, &mut p, end)?)
        } else {
            CommandPayload::Control(CifPayload::parse(w, &mut p, end)?)
        };
        let r = Command {
            cam,
            message_id,
            controllee_id,
            controllee_uuid,
            controller_id,
            controller_uuid,
            command_payload,
        };
        proof {
            assert(seq![r.cam.0, r.message_id] + Self::opt_id_words(r.controllee_id)
                + Self::opt_uuid_words(r.controllee_uuid) + Self::opt_id_words(r.controller_id)
                + Self::opt_uuid_words(r.controller_uuid) =~= w@.subrange(
                *old(pos) as int,
                q_head as int,
            ));
            assert(r.words() =~= w@.subrange(*old(pos) as int, p as int));
        }
        *pos = p;
        Ok(r)
    }
}

} // verus!
