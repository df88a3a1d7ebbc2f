use vstd::prelude::*;

verus! {

/// Longest participant name, in bytes.
pub const MAX_NAME_LEN: usize = 32;

/// Longest participant contact information, in bytes.
pub const MAX_CONTACT_LEN: usize = 64;

/// A principal identifier: the 32 bytes of an account key, as four little-endian words.
#[derive(Debug, Clone, Copy, PartialEq, Eq, Structural)]
pub struct Principal {
    pub w0: u64,
    pub w1: u64,
    pub w2: u64,
    pub w3: u64,
}

/// The roles a registered participant can hold.
#[derive(Debug, Clone, Copy, PartialEq, Eq, Structural)]
pub enum ParticipantRole {
    Farmer,
    Transporter,
    Wholesaler,
    Retailer,
    /// Resolves disputes and takes part in governance.
    Arbitrator,
}

/// A directory entry: which role a principal holds.
#[derive(Debug)]
pub struct Participant {
    pub owner: Principal,
    pub role: ParticipantRole,
    pub name: String,
    pub contact_info: String,
    pub created_at: i64,
}

/// Length in bytes of the UTF-8 encoding of `s`, as `str::len` reports it.
pub open spec fn utf8_len(s: Seq<char>) -> usize {
    vstd::utf8::encode_utf8(s).len() as usize
}

/// Errors of participant registration.
#[derive(Debug, Clone, Copy, PartialEq, Eq, Structural)]
pub enum ErrorCode {
    NameTooLong,
    ContactInfoTooLong,
}


/// Registers `owner` under `role`; the name and the contact information are bounded in bytes.
pub fn register_participant(
    owner: Principal,
    role: ParticipantRole,
    name: String,
    contact_info: String,
    now: i64,
) -> (r: Result<Participant, ErrorCode>)
    ensures
        utf8_len(name@) > MAX_NAME_LEN ==> r == Err::<Participant, ErrorCode>(
            ErrorCode::NameTooLong,
        ),
        utf8_len(name@) <= MAX_NAME_LEN && utf8_len(contact_info@)
            > MAX_CONTACT_LEN ==> r == Err::<Participant, ErrorCode>(ErrorCode::ContactInfoTooLong),
        r is Ok <==> (utf8_len(name@) <= MAX_NAME_LEN
            && utf8_len(contact_info@) <= MAX_CONTACT_LEN),
        r matches Ok(p) ==> p.owner == owner && p.role == role && p.name@ == name@
            && p.contact_info@ == contact_info@ && p.created_at == now,
{
    if name.as_str().len() > MAX_NAME_LEN {
        return Err(ErrorCode::NameTooLong);
    }
    if contact_info.as_str().len() > MAX_CONTACT_LEN {
        return Err(ErrorCode::ContactInfoTooLong);
    }
    Ok(Participant { owner, role, name, contact_info, created_at: now })
}

} // verus!
