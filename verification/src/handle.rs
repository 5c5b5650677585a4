//! The lifecycle protocol for an opaque native handle (a composer / prover
//! context).
//!
//! The native side owns the resource; the host holds only the pointer value
//! as a capability token and must never use it after release, release it
//! twice, or ask for work the accumulated state cannot support. Those
//! mistakes are undefined behavior at the boundary, so this module makes them
//! unrepresentable: a `Composer` carries an explicit state tag, every
//! operation states the tag it needs and the tag it leaves behind, and the
//! one release operation consumes the value, so a released handle cannot be
//! named again.
//!
//! Callers must serialize access per handle: a handle is not thread-safe, and
//! this layer adds no locking. Distinct handles are independent.

use crate::buffer::{encode, wire_format};
use crate::endian::{spec_u32_to_be_bytes, u32_to_be_bytes};
use vstd::prelude::*;

verus! {

/// Where a handle stands in its life.
#[derive(Clone, Copy, Debug, PartialEq, Eq, Structural)]
pub enum HandleState {
    /// Fresh from the native constructor; no key material yet.
    Created,
    /// A proving key has been initialized from a circuit.
    KeyInitialized,
    /// A proof has been generated; the handle can still verify.
    ProofGenerated,
    /// A verification key has been loaded or derived; verify-only flows.
    VerificationKeyLoaded,
    /// Terminal: the native resource is gone and no call may follow.
    Released,
}

/// The operations that drive a handle from state to state.
#[derive(Clone, Copy, Debug, PartialEq, Eq, Structural)]
pub enum HandleOp {
    InitProvingKey,
    CreateProof,
    LoadVerificationKey,
    InitVerificationKey,
    VerifyProof,
    Delete,
}

/// The declared transition relation of the handle protocol: the state an
/// operation leads to, or `None` where the operation is not valid in the
/// given state. An invalid transition is a native-contract violation with no
/// defined outcome, so nothing is conjured for it.
pub open spec fn spec_step(s: HandleState, op: HandleOp) -> Option<HandleState> {
    match op {
        HandleOp::InitProvingKey => if s == HandleState::Created {
            Some(HandleState::KeyInitialized)
        } else {
            None
        },
        HandleOp::CreateProof => if s == HandleState::KeyInitialized {
            Some(HandleState::ProofGenerated)
        } else {
            None
        },
        HandleOp::LoadVerificationKey => if s == HandleState::Created {
            Some(HandleState::VerificationKeyLoaded)
        } else {
            None
        },
        HandleOp::InitVerificationKey => if s == HandleState::Created {
            Some(HandleState::VerificationKeyLoaded)
        } else {
            None
        },
        HandleOp::VerifyProof => if s == HandleState::VerificationKeyLoaded || s
            == HandleState::ProofGenerated {
            Some(s)
        } else {
            None
        },
        HandleOp::Delete => if s != HandleState::Released {
            Some(HandleState::Released)
        } else {
            None
        },
    }
}

/// The transition relation, executable, so that a caller outside the proof
/// can probe which steps are legal instead of attempting one blindly.
pub fn step(s: HandleState, op: HandleOp) -> (r: Option<HandleState>)
    ensures
        r == spec_step(s, op),
{
    match op {
        HandleOp::InitProvingKey => match s {
            HandleState::Created => Some(HandleState::KeyInitialized),
            _ => None,
        },
        HandleOp::CreateProof => match s {
            HandleState::KeyInitialized => Some(HandleState::ProofGenerated),
            _ => None,
        },
        HandleOp::LoadVerificationKey => match s {
            HandleState::Created => Some(HandleState::VerificationKeyLoaded),
            _ => None,
        },
        HandleOp::InitVerificationKey => match s {
            HandleState::Created => Some(HandleState::VerificationKeyLoaded),
            _ => None,
        },
        HandleOp::VerifyProof => match s {
            HandleState::VerificationKeyLoaded => Some(s),
            HandleState::ProofGenerated => Some(s),
            _ => None,
        },
        HandleOp::Delete => match s {
            HandleState::Released => None,
            _ => Some(HandleState::Released),
        },
    }
}

/// Verification demands key material: `VerifyProof` is legal exactly in the
/// two states that hold it, never straight from `Created`, and it never moves
/// the handle.
pub proof fn lemma_verify_needs_key(s: HandleState)
    ensures
        spec_step(s, HandleOp::VerifyProof) is Some <==> (s == HandleState::VerificationKeyLoaded
            || s == HandleState::ProofGenerated),
        spec_step(HandleState::Created, HandleOp::VerifyProof) is None,
        spec_step(s, HandleOp::VerifyProof) matches Some(t) ==> t == s,
{
}

/// Release is terminal: nothing steps out of `Released`, and `Delete` is
/// legal exactly once, from every other state.
pub proof fn lemma_released_is_terminal(op: HandleOp, s: HandleState)
    ensures
        spec_step(HandleState::Released, op) is None,
        spec_step(s, HandleOp::Delete) is Some <==> s != HandleState::Released,
{
}

/// One live native handle with its state tag. The token is the raw pointer
/// value the native constructor returned; it is never dereferenced on this
/// side, only handed back to native calls.
pub struct Composer {
    token: usize,
    state: HandleState,
}

impl Composer {
    /// The handle's current place in the protocol.
    pub closed spec fn spec_state(&self) -> HandleState {
        self.state
    }

    /// The capability token the native constructor returned.
    pub closed spec fn spec_token(&self) -> usize {
        self.token
    }

    /// Adopts a token fresh from the native constructor.
    pub fn new(token: usize) -> (c: Composer)
        ensures
            c.spec_state() == HandleState::Created,
            c.spec_token() == token,
    {
        Composer { token, state: HandleState::Created }
    }

    pub fn state(&self) -> (s: HandleState)
        ensures
            s == self.spec_state(),
    {
        self.state
    }

    pub fn token(&self) -> (t: usize)
        ensures
            t == self.spec_token(),
    {
        self.token
    }

    /// Whether a verify call is legal right now.
    pub fn can_verify(&self) -> (r: bool)
        ensures
            r == (self.spec_state() == HandleState::VerificationKeyLoaded || self.spec_state()
                == HandleState::ProofGenerated),
    {
        match self.state {
            HandleState::VerificationKeyLoaded => true,
            HandleState::ProofGenerated => true,
            _ => false,
        }
    }

    /// Marshals the circuit for the native proving-key initialization and
    /// advances the handle, as the protocol declares for `InitProvingKey`.
    pub fn init_proving_key_request(&mut self, circuit: &[u8]) -> (r: Vec<u8>)
        requires
            old(self).spec_state() == HandleState::Created,
            circuit@.len() <= u32::MAX,
        ensures
            r@ == wire_format(circuit@),
            final(self).spec_token() == old(self).spec_token(),
            Some(final(self).spec_state()) == spec_step(
                old(self).spec_state(),
                HandleOp::InitProvingKey,
            ),
    {
        self.state = HandleState::KeyInitialized;
        encode(circuit)
    }

    /// Marshals circuit and witness for the native proof construction and
    /// advances the handle, as the protocol declares for `CreateProof`.
    pub fn create_proof_request(&mut self, circuit: &[u8], witness: &[u8]) -> (r: (Vec<u8>, Vec<
        u8,
    >))
        requires
            old(self).spec_state() == HandleState::KeyInitialized,
            circuit@.len() <= u32::MAX,
            witness@.len() <= u32::MAX,
        ensures
            r.0@ == wire_format(circuit@),
            r.1@ == wire_format(witness@),
            final(self).spec_token() == old(self).spec_token(),
            Some(final(self).spec_state()) == spec_step(
                old(self).spec_state(),
                HandleOp::CreateProof,
            ),
    {
        self.state = HandleState::ProofGenerated;
        (encode(circuit), encode(witness))
    }

    /// Marshals a verification key for the native load and advances the
    /// handle, as the protocol declares for `LoadVerificationKey`.
    pub fn load_verification_key_request(&mut self, vk: &[u8]) -> (r: Vec<u8>)
        requires
            old(self).spec_state() == HandleState::Created,
            vk@.len() <= u32::MAX,
        ensures
            r@ == wire_format(vk@),
            final(self).spec_token() == old(self).spec_token(),
            Some(final(self).spec_state()) == spec_step(
                old(self).spec_state(),
                HandleOp::LoadVerificationKey,
            ),
    {
        self.state = HandleState::VerificationKeyLoaded;
        encode(vk)
    }

    /// Records that the native side derived a verification key in place, as
    /// the protocol declares for `InitVerificationKey`. No bytes cross for
    /// this call.
    pub fn init_verification_key(&mut self)
        requires
            old(self).spec_state() == HandleState::Created,
        ensures
            final(self).spec_token() == old(self).spec_token(),
            Some(final(self).spec_state()) == spec_step(
                old(self).spec_state(),
                HandleOp::InitVerificationKey,
            ),
    {
        self.state = HandleState::VerificationKeyLoaded;
    }

    /// Marshals a proof for the native verify call. Legal only with key
    /// material on hand; the handle does not move.
    pub fn verify_proof_request(&self, proof: &[u8]) -> (r: Vec<u8>)
        requires
            self.spec_state() == HandleState::VerificationKeyLoaded || self.spec_state()
                == HandleState::ProofGenerated,
            proof@.len() <= u32::MAX,
        ensures
            r@ == wire_format(proof@),
            spec_step(self.spec_state(), HandleOp::VerifyProof) == Some(self.spec_state()),
    {
        encode(proof)
    }

    /// Marshals a proof and the public-input count for the native
    /// field-serialization view. The handle does not move.
    pub fn serialize_proof_request(&self, proof: &[u8], num_inner_public_inputs: u32) -> (r: (Vec<
        u8,
    >, [u8; 4]))
        requires
            proof@.len() <= u32::MAX,
        ensures
            r.0@ == wire_format(proof@),
            r.1@ == spec_u32_to_be_bytes(num_inner_public_inputs),
    {
        (encode(proof), u32_to_be_bytes(num_inner_public_inputs))
    }

    /// Gives the token up for the one native delete call. Consuming the
    /// handle is what makes a second release, or any later use,
    /// unrepresentable rather than undefined.
    pub fn delete(self) -> (t: usize)
        ensures
            t == self.spec_token(),
    {
        self.token
    }
}

} // verus!
