//! Who is economically responsible for the current invocation, read from the
//! host's call stack.
use vstd::prelude::*;

verus! {

/// A 32-byte hash, as the host uses for accounts, contracts and packages.
#[derive(Clone, Copy, Debug, Eq)]
pub struct Hash32 {
    pub bytes: [u8; 32],
}

impl PartialEq for Hash32 {
    fn eq(&self, o: &Hash32) -> (r: bool) {
        proof {
            broadcast use vstd::array::group_array_axioms;
        }
        let mut i: usize = 0;
        while i < 32
            invariant
                i <= 32,
                forall|j: int| 0 <= j < i ==> self.bytes[j] == o.bytes[j],
            decreases 32 - i,
        {
            if self.bytes[i] != o.bytes[i] {
                return false;
            }
            i = i + 1;
        }
        assert(self.bytes =~= o.bytes);
        true
    }
}

impl vstd::std_specs::cmp::PartialEqSpecImpl for Hash32 {
    open spec fn obeys_eq_spec() -> bool {
        true
    }

    open spec fn eq_spec(&self, o: &Hash32) -> bool {
        *self == *o
    }
}

/// An economic actor: a key-signed account or a contract package.
#[derive(Clone, Copy, Debug, Eq)]
pub enum Address {
    Account(Hash32),
    Contract(Hash32),
}

impl PartialEq for Address {
    fn eq(&self, o: &Address) -> (r: bool) {
        match (self, o) {
            (Address::Account(a), Address::Account(b)) => a == b,
            (Address::Contract(a), Address::Contract(b)) => a == b,
            _ => false,
        }
    }
}

impl vstd::std_specs::cmp::PartialEqSpecImpl for Address {
    open spec fn obeys_eq_spec() -> bool {
        true
    }

    open spec fn eq_spec(&self, o: &Address) -> bool {
        *self == *o
    }
}

/// One frame of the host's call stack, outermost first.
#[derive(Clone, Copy, Debug)]
pub enum Frame {
    /// Session code signed by an account.
    Session { account_hash: Hash32 },
    /// Stored session code, run in the signing account's authority.
    StoredSession { account_hash: Hash32, contract_package_hash: Hash32, contract_hash: Hash32 },
    /// A stored contract.
    StoredContract { contract_package_hash: Hash32, contract_hash: Hash32 },
}

/// The address that a frame stands for.
pub open spec fn frame_address(f: Frame) -> Address {
    match f {
        Frame::Session { account_hash } => Address::Account(account_hash),
        Frame::StoredSession { account_hash, .. } => Address::Account(account_hash),
        Frame::StoredContract { contract_package_hash, .. } => Address::Contract(
            contract_package_hash,
        ),
    }
}

/// Maps a frame to the address it acts for: session code, stored or not, acts
/// for its signer; a contract acts for its own package.
pub fn call_stack_element_to_address(frame: &Frame) -> (r: Address)
    ensures
        r == frame_address(*frame),
{
    match frame {
        Frame::Session { account_hash } => Address::Account(*account_hash),
        Frame::StoredSession { account_hash, .. } => Address::Account(*account_hash),
        Frame::StoredContract { contract_package_hash, .. } => Address::Contract(
            *contract_package_hash,
        ),
    }
}

/// Which frame of the call stack an entry point holds responsible.
#[derive(Clone, Copy, Debug, PartialEq, Eq, Structural)]
pub enum CallerPolicy {
    /// The frame directly beneath the executing one.
    Immediate,
    /// The outermost frame, the one that started the whole chain.
    Outermost,
}

/// Why no caller could be resolved.
#[derive(Clone, Copy, Debug, PartialEq, Eq, Structural)]
pub enum CallerError {
    /// The call stack holds no frame beneath the executing one.
    InvalidContext,
}

/// The frame that `policy` picks from `stack` (outermost first, the executing
/// frame last); there is one only when some frame lies beneath the executing
/// one.
pub open spec fn caller_frame(stack: Seq<Frame>, policy: CallerPolicy) -> Option<Frame> {
    if stack.len() < 2 {
        None
    } else {
        match policy {
            CallerPolicy::Immediate => Some(stack[stack.len() - 2]),
            CallerPolicy::Outermost => Some(stack[0]),
        }
    }
}

/// The address held responsible for an invocation with call stack `stack`.
pub open spec fn resolved_caller(stack: Seq<Frame>, policy: CallerPolicy) -> Result<
    Address,
    CallerError,
> {
    match caller_frame(stack, policy) {
        Some(f) => Ok(frame_address(f)),
        None => Err(CallerError::InvalidContext),
    }
}

/// The frame directly beneath the executing one, if there is one.
pub fn get_immediate_call_stack_item(stack: &Vec<Frame>) -> (r: Option<Frame>)
    ensures
        r == caller_frame(stack@, CallerPolicy::Immediate),
{
    let n = stack.len();
    if n < 2 {
        None
    } else {
        Some(stack[n - 2])
    }
}

/// The outermost frame, if some frame lies beneath the executing one.
pub fn get_first_call_stack_item(stack: &Vec<Frame>) -> (r: Option<Frame>)
    ensures
        r == caller_frame(stack@, CallerPolicy::Outermost),
{
    if stack.len() < 2 {
        None
    } else {
        Some(stack[0])
    }
}

/// Resolves the address responsible for an invocation under `policy`.
pub fn resolve_caller(stack: &Vec<Frame>, policy: CallerPolicy) -> (r: Result<
    Address,
    CallerError,
>)
    ensures
        r == resolved_caller(stack@, policy),
{
    let frame = match policy {
        CallerPolicy::Immediate => get_immediate_call_stack_item(stack),
        CallerPolicy::Outermost => get_first_call_stack_item(stack),
    };
    match frame {
        Some(f) => Ok(call_stack_element_to_address(&f)),
        None => Err(CallerError::InvalidContext),
    }
}

/// The immediate caller's address, as the deposit and withdrawal entry points
/// resolve it.
pub fn get_immediate_caller_address(stack: &Vec<Frame>) -> (r: Result<Address, CallerError>)
    ensures
        r == resolved_caller(stack@, CallerPolicy::Immediate),
{
    resolve_caller(stack, CallerPolicy::Immediate)
}

/// The account hash behind an address, if it is an account.
pub fn account_hash_of(a: &Address) -> (r: Option<Hash32>)
    ensures
        r == match *a {
            Address::Account(h) => Some(h),
            Address::Contract(_) => None::<Hash32>,
        },
{
    match a {
        Address::Account(h) => Some(*h),
        Address::Contract(_) => None,
    }
}

} // verus!
