use vstd::prelude::*;

verus! {

/// Width in bytes of a program or account identity.
pub const IDENTITY_WIDTH: usize = 32;

/// An opaque fixed-width identity: the public key of a program or of the
/// party an account belongs to. Two identities are the same exactly when
/// all their bytes agree.
#[derive(Debug, Clone, Copy)]
pub struct Identity {
    /// The raw key bytes.
    pub bytes: [u8; 32],
}

/// The one account field the handler reads and the one it writes, as the
/// host runtime hands them over: the identity of the owning program, and
/// the mutable byte buffer holding the serialized counter state. The
/// host's other account fields (balance, signer flag, ...) are not part
/// of this core and stay with the host.
#[derive(Debug, Clone)]
pub struct Account {
    /// Identity of the program allowed to mutate `data`.
    pub owner: Identity,
    /// The account's persistent byte buffer.
    pub data: Vec<u8>,
}

} // verus!
