//! The buffer authorization protocol.
//!
//! Each operation is a single synchronous transform of one buffer record,
//! given inputs the surrounding runtime has already resolved to plain values:
//! the record's bytes, the identities involved, and the verdict of the
//! identity-proof collaborator as a boolean. Validation is staged before any
//! write, so an error always means the record is untouched. Allocation of new
//! records belongs to the external storage collaborator: initialization
//! therefore splits into a validation step that decides and a header-writing
//! step that runs once the collaborator has allocated.

use vstd::prelude::*;

use crate::derivation::derive_result;
use crate::derivation::is_system_collaborator;
use crate::derivation::is_system_program;
use crate::error::EchoError;
use crate::identity::identity_eq;
use crate::identity::Identity;
use crate::state::spec_header_bytes;
use crate::state::spec_stored_seed;
use crate::state::AuthorizedBufferHeader;
use crate::state::HEADER_LEN;

verus! {

/// Whether every byte of a record is zero: the precondition of the one-shot
/// anonymous write.
pub open spec fn all_zero(s: Seq<u8>) -> bool {
    forall|i: int| 0 <= i < s.len() ==> s[i] == 0u8
}

/// The record after an anonymous write: the overlapping prefix is replaced by
/// the payload and every byte beyond the payload keeps its previous value,
/// which the zero-precondition has pinned to zero.
pub open spec fn spec_echoed(record: Seq<u8>, data: Seq<u8>) -> Seq<u8> {
    Seq::new(
        record.len(),
        |i: int|
            if i < data.len() {
                data[i]
            } else {
                record[i]
            },
    )
}

/// Outcome of the anonymous echo: rejected when the record has no capacity or
/// any byte of it is already non-zero, otherwise the prefix write.
pub open spec fn spec_echo(record: Seq<u8>, data: Seq<u8>) -> Result<Seq<u8>, EchoError> {
    if record.len() == 0 {
        Err(EchoError::BufferNotAllocated)
    } else if !all_zero(record) {
        Err(EchoError::BufferNotEmpty)
    } else {
        Ok(spec_echoed(record, data))
    }
}

/// The record after an authorized rewrite: the nine header bytes are kept,
/// the payload region is zeroed in full, and the payload's overlapping prefix
/// is copied in after offset nine.
pub open spec fn spec_rewritten(record: Seq<u8>, data: Seq<u8>) -> Seq<u8>
    recommends
        record.len() >= HEADER_LEN,
{
    Seq::new(
        record.len(),
        |i: int|
            if i < HEADER_LEN {
                record[i]
            } else if i - HEADER_LEN < data.len() {
                data[i - HEADER_LEN]
            } else {
                0u8
            },
    )
}

/// Outcome of the authorized echo. The sole authorization gate: re-derive
/// from the caller's identity and the seed stored in the record's header, and
/// demand that the derived identifier equal the record's own.
pub open spec fn spec_authorized_echo(
    record: Seq<u8>,
    namespace: Seq<u8>,
    authority: Seq<u8>,
    authority_signed: bool,
    supplied: Seq<u8>,
    data: Seq<u8>,
) -> Result<Seq<u8>, EchoError>
    recommends
        record.len() >= HEADER_LEN,
{
    if !authority_signed {
        Err(EchoError::MissingAuthorizationProof)
    } else {
        match derive_result(authority, spec_stored_seed(record), namespace) {
            Some(p) => if p.0 == supplied {
                Ok(spec_rewritten(record, data))
            } else {
                Err(EchoError::AddressMismatch)
            },
            None => Err(EchoError::AddressMismatch),
        }
    }
}

/// Outcome of validating an initialization request: the caller must prove the
/// owning identity, must name the system allocation collaborator, and the
/// derivation from its identity and seed must reproduce the supplied target
/// identifier exactly. On success, the proof byte the header will carry.
pub open spec fn spec_validate_initialize(
    namespace: Seq<u8>,
    authority: Seq<u8>,
    authority_signed: bool,
    system_key: Seq<u8>,
    supplied: Seq<u8>,
    buffer_seed: u64,
) -> Result<u8, EchoError> {
    if !authority_signed {
        Err(EchoError::MissingAuthorizationProof)
    } else if !is_system_collaborator(system_key) {
        Err(EchoError::InvalidInput)
    } else {
        match derive_result(authority, buffer_seed, namespace) {
            Some(p) => if p.0 == supplied {
                Ok(p.1)
            } else {
                Err(EchoError::AddressMismatch)
            },
            None => Err(EchoError::AddressMismatch),
        }
    }
}

/// The decoded request surface, one variant per opcode. The target buffer
/// identifier and the identities involved arrive as out-of-band addressed
/// parameters, not inside these payloads; decoding the wire framing itself
/// belongs to the surrounding runtime.
#[derive(Clone, Debug)]
pub enum EchoInstruction {
    Echo { data: Vec<u8> },
    InitializeAuthorizedEcho { buffer_seed: u64, buffer_size: u64 },
    AuthorizedEcho { data: Vec<u8> },
    InitializeVendingMachineEcho { price: u64, buffer_size: u64 },
    VendingMachineEcho { data: Vec<u8> },
}

/// What a successful step leaves for the storage collaborator to do.
#[derive(Clone, Debug)]
pub enum EchoAction {
    /// The record was transformed in place, or nothing needed doing.
    Done,
    /// The collaborator must allocate a record of `buffer_size` bytes at
    /// `identifier`, after which `Processor::write_authorized_header` seals
    /// its provenance header. Nothing has been written yet.
    Allocate { identifier: Identity, buffer_size: u64, header: AuthorizedBufferHeader },
}

/// Check a condition and surface the given error when it does not hold. The
/// accompanying message is for the surrounding runtime's log and plays no
/// part in the outcome.
pub fn assert_with_msg(statement: bool, err: EchoError, msg: &str) -> (r: Result<(), EchoError>)
    ensures
        statement ==> r == Ok::<(), EchoError>(()),
        !statement ==> r == Err::<(), EchoError>(err),
{
    let _ = msg;
    if !statement {
        Err(err)
    } else {
        Ok(())
    }
}

pub struct Processor {}

impl Processor {
    /// Anonymous echo: a one-shot write that anyone may perform, gated only
    /// by the record being entirely zero.
    #[verifier::loop_isolation(false)]
    pub fn echo(record: &mut Vec<u8>, data: &Vec<u8>) -> (r: Result<(), EchoError>)
        ensures
            (match r {
                Ok(_) => spec_echo(old(record)@, data@) == Ok::<Seq<u8>, EchoError>(
                    final(record)@,
                ),
                Err(e) => spec_echo(old(record)@, data@) == Err::<Seq<u8>, EchoError>(e)
                    && final(record)@ == old(record)@,
            }),
    {
        let buf_size = record.len();
        match assert_with_msg(buf_size > 0, EchoError::BufferNotAllocated, "Buffer is not allocated!") {
            Err(e) => {
                return Err(e);
            },
            Ok(_) => {},
        }
        let mut buffer_is_empty = true;
        let mut i: usize = 0;
        while i < buf_size
            invariant
                i <= buf_size,
                buffer_is_empty ==> forall|k: int| 0 <= k < i ==> record@[k] == 0u8,
                !buffer_is_empty ==> exists|k: int| 0 <= k < i && record@[k] != 0u8,
            decreases buf_size - i,
        {
            if record[i] != 0 {
                buffer_is_empty = false;
            }
            i = i + 1;
        }
        proof {
            if buffer_is_empty {
                assert(all_zero(record@));
            }
        }
        match assert_with_msg(buffer_is_empty, EchoError::BufferNotEmpty, "Buffer is not empty!") {
            Err(e) => {
                return Err(e);
            },
            Ok(_) => {},
        }
        let mut i: usize = 0;
        while i < buf_size
            invariant
                i <= buf_size,
                record.len() == buf_size,
                forall|k: int| 0 <= k < i ==> record@[k] == spec_echoed(old(record)@, data@)[k],
                forall|k: int| i <= k < buf_size ==> record@[k] == old(record)@[k],
            decreases buf_size - i,
        {
            if i < data.len() {
                record.set(i, data[i]);
            }
            i = i + 1;
        }
        proof {
            assert(record@ =~= spec_echoed(old(record)@, data@));
        }
        Ok(())
    }

    /// Validate an initialization request, before anything is allocated or
    /// written: the decision half of authorized initialization. On success
    /// the storage collaborator may allocate the record at the supplied
    /// identifier, after which `write_authorized_header` seals it.
    pub fn validate_initialize_authorized_buffer(
        namespace: &Identity,
        authority: &Identity,
        authority_signed: bool,
        system_key: &Identity,
        supplied: &Identity,
        buffer_seed: u64,
    ) -> (r: Result<u8, EchoError>)
        ensures
            r == spec_validate_initialize(
                namespace@,
                authority@,
                authority_signed,
                system_key@,
                supplied@,
                buffer_seed,
            ),
    {
        match assert_with_msg(
            authority_signed,
            EchoError::MissingAuthorizationProof,
            "Authority needs to sign!",
        ) {
            Err(e) => {
                return Err(e);
            },
            Ok(_) => {},
        }
        let system_ok = is_system_program(system_key);
        match assert_with_msg(system_ok, EchoError::InvalidInput, "System program key is incorrect!") {
            Err(e) => {
                return Err(e);
            },
            Ok(_) => {},
        }
        match crate::derivation::derive(authority, buffer_seed, namespace) {
            Some(p) => {
                if identity_eq(&p.0, supplied) {
                    Ok(p.1)
                } else {
                    Err(EchoError::AddressMismatch)
                }
            },
            None => Err(EchoError::AddressMismatch),
        }
    }

    /// Seal a freshly allocated record with its provenance header: the effect
    /// half of authorized initialization. The payload region is left as the
    /// allocator handed it over.
    pub fn write_authorized_header(record: &mut Vec<u8>, header: AuthorizedBufferHeader)
        requires
            old(record).len() >= HEADER_LEN,
        ensures
            final(record).len() == old(record).len(),
            final(record)@.subrange(0, 9) == spec_header_bytes(header),
            final(record)@.subrange(9, final(record).len() as int) == old(record)@.subrange(
                9,
                old(record).len() as int,
            ),
            spec_stored_seed(final(record)@) == header.buffer_seed,
    {
        header.write_to(record);
    }

    /// Authorized echo: rewrite the payload of an authorized buffer. The
    /// caller is authorized exactly when the identifier derived from its
    /// identity and the stored seed equals the record's own identifier; the
    /// whole payload region is then zeroed and the payload's prefix copied in.
    #[verifier::loop_isolation(false)]
    pub fn authorized_echo(
        record: &mut Vec<u8>,
        namespace: &Identity,
        authority: &Identity,
        authority_signed: bool,
        supplied: &Identity,
        data: &Vec<u8>,
    ) -> (r: Result<(), EchoError>)
        requires
            old(record).len() >= HEADER_LEN,
        ensures
            (match r {
                Ok(_) => spec_authorized_echo(
                    old(record)@,
                    namespace@,
                    authority@,
                    authority_signed,
                    supplied@,
                    data@,
                ) == Ok::<Seq<u8>, EchoError>(final(record)@),
                Err(e) => spec_authorized_echo(
                    old(record)@,
                    namespace@,
                    authority@,
                    authority_signed,
                    supplied@,
                    data@,
                ) == Err::<Seq<u8>, EchoError>(e) && final(record)@ == old(record)@,
            }),
    {
        match assert_with_msg(
            authority_signed,
            EchoError::MissingAuthorizationProof,
            "Authority needs to sign!",
        ) {
            Err(e) => {
                return Err(e);
            },
            Ok(_) => {},
        }
        let header = AuthorizedBufferHeader::read_from(record);
        match crate::derivation::derive(authority, header.buffer_seed, namespace) {
            None => {
                return Err(EchoError::AddressMismatch);
            },
            Some(p) => {
                if !identity_eq(&p.0, supplied) {
                    return Err(EchoError::AddressMismatch);
                }
            },
        }
        let len = record.len();
        let mut i: usize = HEADER_LEN;
        while i < len
            invariant
                HEADER_LEN <= i <= len,
                record.len() == len,
                forall|k: int| 0 <= k < HEADER_LEN ==> record@[k] == old(record)@[k],
                forall|k: int| HEADER_LEN <= k < i ==> record@[k] == 0u8,
                forall|k: int| i <= k < len ==> record@[k] == old(record)@[k],
            decreases len - i,
        {
            record.set(i, 0);
            i = i + 1;
        }
        let payload_cap = len - HEADER_LEN;
        let mut j: usize = 0;
        while j < data.len() && j < payload_cap
            invariant
                j <= payload_cap,
                j <= data.len(),
                record.len() == len,
                forall|k: int| 0 <= k < HEADER_LEN ==> record@[k] == old(record)@[k],
                forall|k: int| HEADER_LEN <= k < HEADER_LEN + j ==> record@[k] == data@[k - HEADER_LEN],
                forall|k: int| HEADER_LEN + j <= k < len ==> record@[k] == 0u8,
            decreases payload_cap - j,
        {
            record.set(HEADER_LEN + j, data[j]);
            j = j + 1;
        }
        proof {
            assert(record@ =~= spec_rewritten(old(record)@, data@));
        }
        Ok(())
    }

    /// One protocol step: dispatch a decoded request against the target
    /// record. The record's bytes, the supplied target identifier, the
    /// declared authority with the identity-proof collaborator's verdict, and
    /// the named allocation collaborator all arrive resolved to plain values.
    /// Anonymous and authorized echoes transform the record in place; an
    /// initialization request only decides, handing back the allocation the
    /// storage collaborator must perform before the header is written; the
    /// vending variants refuse and touch nothing.
    pub fn process_instruction(
        namespace: &Identity,
        record: &mut Vec<u8>,
        supplied: &Identity,
        authority: &Identity,
        authority_signed: bool,
        system_key: &Identity,
        instruction: &EchoInstruction,
    ) -> (r: Result<EchoAction, EchoError>)
        requires
            (*instruction matches EchoInstruction::AuthorizedEcho { .. }) ==> old(record).len()
                >= HEADER_LEN,
        ensures
            (match *instruction {
                EchoInstruction::Echo { data } => match r {
                    Ok(a) => a == EchoAction::Done && spec_echo(old(record)@, data@) == Ok::<
                        Seq<u8>,
                        EchoError,
                    >(final(record)@),
                    Err(e) => spec_echo(old(record)@, data@) == Err::<Seq<u8>, EchoError>(e)
                        && final(record)@ == old(record)@,
                },
                EchoInstruction::InitializeAuthorizedEcho { buffer_seed, buffer_size } => final(record)@
                    == old(record)@ && (match r {
                    Ok(a) => spec_validate_initialize(
                        namespace@,
                        authority@,
                        authority_signed,
                        system_key@,
                        supplied@,
                        buffer_seed,
                    ) matches Ok(bump) && a == (EchoAction::Allocate {
                        identifier: *supplied,
                        buffer_size,
                        header: (AuthorizedBufferHeader { bump_seed: bump, buffer_seed }),
                    }),
                    Err(e) => spec_validate_initialize(
                        namespace@,
                        authority@,
                        authority_signed,
                        system_key@,
                        supplied@,
                        buffer_seed,
                    ) == Err::<u8, EchoError>(e),
                }),
                EchoInstruction::AuthorizedEcho { data } => match r {
                    Ok(a) => a == EchoAction::Done && spec_authorized_echo(
                        old(record)@,
                        namespace@,
                        authority@,
                        authority_signed,
                        supplied@,
                        data@,
                    ) == Ok::<Seq<u8>, EchoError>(final(record)@),
                    Err(e) => spec_authorized_echo(
                        old(record)@,
                        namespace@,
                        authority@,
                        authority_signed,
                        supplied@,
                        data@,
                    ) == Err::<Seq<u8>, EchoError>(e) && final(record)@ == old(record)@,
                },
                EchoInstruction::InitializeVendingMachineEcho { .. } => r == Err::<
                    EchoAction,
                    EchoError,
                >(EchoError::NotImplemented) && final(record)@ == old(record)@,
                EchoInstruction::VendingMachineEcho { .. } => r == Err::<EchoAction, EchoError>(
                    EchoError::NotImplemented,
                ) && final(record)@ == old(record)@,
            }),
    {
        match instruction {
            EchoInstruction::Echo { data } => {
                match Self::echo(record, data) {
                    Ok(_) => Ok(EchoAction::Done),
                    Err(e) => Err(e),
                }
            },
            EchoInstruction::InitializeAuthorizedEcho { buffer_seed, buffer_size } => {
                match Self::validate_initialize_authorized_buffer(
                    namespace,
                    authority,
                    authority_signed,
                    system_key,
                    supplied,
                    *buffer_seed,
                ) {
                    Ok(bump_seed) => Ok(
                        EchoAction::Allocate {
                            identifier: *supplied,
                            buffer_size: *buffer_size,
                            header: AuthorizedBufferHeader {
                                bump_seed,
                                buffer_seed: *buffer_seed,
                            },
                        },
                    ),
                    Err(e) => Err(e),
                }
            },
            EchoInstruction::AuthorizedEcho { data } => {
                match Self::authorized_echo(
                    record,
                    namespace,
                    authority,
                    authority_signed,
                    supplied,
                    data,
                ) {
                    Ok(_) => Ok(EchoAction::Done),
                    Err(e) => Err(e),
                }
            },
            EchoInstruction::InitializeVendingMachineEcho { price, buffer_size } => {
                match Self::initialize_vending_machine_echo(*price, *buffer_size) {
                    Ok(_) => Ok(EchoAction::Done),
                    Err(e) => Err(e),
                }
            },
            EchoInstruction::VendingMachineEcho { data } => {
                match Self::vending_machine_echo(data) {
                    Ok(_) => Ok(EchoAction::Done),
                    Err(e) => Err(e),
                }
            },
        }
    }

    /// The priced "vending machine" initialization variant: declared in the
    /// protocol surface, but it has no behaviour and touches nothing.
    pub fn initialize_vending_machine_echo(price: u64, buffer_size: u64) -> (r: Result<
        (),
        EchoError,
    >)
        ensures
            r == Err::<(), EchoError>(EchoError::NotImplemented),
    {
        let _ = price;
        let _ = buffer_size;
        Err(EchoError::NotImplemented)
    }

    /// The priced "vending machine" echo variant: declared in the protocol
    /// surface, but it has no behaviour and touches nothing.
    pub fn vending_machine_echo(data: &Vec<u8>) -> (r: Result<(), EchoError>)
        ensures
            r == Err::<(), EchoError>(EchoError::NotImplemented),
    {
        let _ = data;
        Err(EchoError::NotImplemented)
    }
}

} // verus!
