//! The slot that owns the algorithm instance, and the guarded entry points.
//!
//! The host calls one entry point at a time: `Init`, then any number of
//! `EraseChip`, `EraseSector`, `ProgramPage` and `Verify`, then `UnInit`. The
//! slot is either empty (uninitialized) or holds the one instance that `Init`
//! constructed (initialized). Every entry point but `Init` is rejected while
//! the slot is empty.
//!
//! What an operation returns is for the algorithm to decide, so no contract
//! here can tell it in advance. Instead the slot keeps a ghost record of every
//! exchange with the algorithm: what was handed to it and what it answered.
//! The contracts of the entry points say how that record grows and how the
//! status word follows from the newest answer. Each entry point adds to the
//! record right after the call it records.

use crate::algorithm::{EraseAll, FlashAlgorithm, Verify};
use crate::function::Function;
use crate::status::{
    status_code, status_of, ErrorCode, Outcome, STATUS_NOT_INITIALIZED, STATUS_OK,
};
use vstd::prelude::*;
use vstd::slice::slice_subrange;

verus! {

/// One thing an entry point did to the algorithm: an invocation of the
/// constructor or of an operation, with what was handed to it and what it
/// answered, or the destruction of the instance.
pub enum Call {
    /// The constructor was invoked.
    Construct { address: u32, clock: u32, function: Function, outcome: Outcome },
    /// The instance was destroyed.
    Destroy,
    /// The erase-all operation was invoked.
    EraseAll { outcome: Outcome },
    /// The sector-erase operation was invoked.
    EraseSector { address: u32, outcome: Outcome },
    /// The program operation was invoked with a view of these bytes.
    ProgramPage { address: u32, data: Seq<u8>, outcome: Outcome },
    /// The verify operation was invoked, with a view of these bytes or with
    /// no buffer to compare with.
    Verify { address: u32, size: u32, expected: Option<Seq<u8>>, outcome: Outcome },
}

/// What a slot holds: the instance, if there is one, and everything the entry
/// points have done to the algorithm so far, oldest first.
pub struct SlotState<A> {
    pub instance: Option<A>,
    pub calls: Seq<Call>,
}

impl<A> SlotState<A> {
    /// Whether an instance is present.
    pub open spec fn initialized(self) -> bool {
        self.instance is Some
    }

    /// The state once the instance, if there was one, has been destroyed.
    pub open spec fn released(self) -> Self {
        if self.initialized() {
            SlotState { instance: None, calls: self.calls.push(Call::Destroy) }
        } else {
            self
        }
    }

    /// The state once an empty slot has taken in what the constructor
    /// returned: the instance, where it returned one.
    pub open spec fn installed(self, built: Result<A, ErrorCode>) -> Self {
        SlotState {
            instance: match built {
                Ok(instance) => Some(instance),
                Err(_) => None,
            },
            calls: self.calls,
        }
    }

    /// The state once `Init` has run and the constructor has returned
    /// `built`: the instance that was present is destroyed first, then the
    /// constructor's invocation is recorded and its instance stored.
    pub open spec fn reinitialized(
        self,
        address: u32,
        clock: u32,
        function: Function,
        built: Result<A, ErrorCode>,
    ) -> Self {
        let outcome = match built {
            Ok(_) => Ok(()),
            Err(error) => Err(error),
        };
        let emptied = self.released();
        SlotState {
            instance: None,
            calls: emptied.calls.push(Call::Construct { address, clock, function, outcome }),
        }.installed(built)
    }
}

/// Destroying leaves the slot empty and happens at most once: a slot that
/// holds an instance records one destruction, an empty slot is left as it
/// is, and destroying again changes nothing.
pub proof fn lemma_released<A>(state: SlotState<A>)
    ensures
        !state.released().initialized(),
        state.initialized() ==> state.released().calls == state.calls.push(Call::Destroy),
        !state.initialized() ==> state.released() == state,
        state.released().released() == state.released(),
{
}

/// `Init` on a slot that holds an instance destroys that instance exactly
/// once, and does so before it invokes the constructor; on an empty slot it
/// destroys nothing. Either way the slot holds an instance afterwards exactly
/// if the constructor returned one, and on a failure it is empty.
pub proof fn lemma_reinitialized<A>(
    state: SlotState<A>,
    address: u32,
    clock: u32,
    function: Function,
    built: Result<A, ErrorCode>,
)
    ensures
        ({
            let next = state.reinitialized(address, clock, function, built);
            &&& next.initialized() <==> built is Ok
            &&& next.calls.last() is Construct
            &&& state.initialized() ==> {
                &&& next.calls.len() == state.calls.len() + 2
                &&& next.calls.take(state.calls.len() as int) == state.calls
                &&& next.calls[state.calls.len() as int] == Call::Destroy
            }
            &&& !state.initialized() ==> {
                &&& next.calls.len() == state.calls.len() + 1
                &&& next.calls.drop_last() == state.calls
            }
        }),
{
}

/// The first `size` bytes of the host's region, where a region is given.
pub open spec fn bounded(size: u32, data: Option<&[u8]>) -> Option<Seq<u8>> {
    match data {
        Some(region) => Some(region@.take(size as int)),
        None => None,
    }
}

/// The one place an algorithm instance lives in.
pub struct AlgorithmSlot<A> {
    instance: Option<A>,
    calls: Ghost<Seq<Call>>,
}

impl<A> View for AlgorithmSlot<A> {
    type V = SlotState<A>;

    closed spec fn view(&self) -> SlotState<A> {
        SlotState { instance: self.instance, calls: self.calls@ }
    }
}

impl<A: FlashAlgorithm> AlgorithmSlot<A> {
    /// An empty slot, to which nothing has happened yet.
    pub fn new() -> (slot: Self)
        ensures
            slot@ == (SlotState::<A> { instance: None, calls: Seq::empty() }),
    {
        AlgorithmSlot { instance: None, calls: Ghost(Seq::empty()) }
    }

    /// Whether an instance is present.
    pub fn is_initialized(&self) -> (initialized: bool)
        ensures
            initialized == self@.initialized(),
    {
        self.instance.is_some()
    }

    /// Entry point `Init`.
    ///
    /// Destroys the instance that is present, if any, then invokes the
    /// constructor for the function that `function_code` names. Where the
    /// constructor returns an instance, the slot holds it afterwards and the
    /// status is zero; where it fails, the slot is empty and the status is
    /// the code of the failure.
    ///
    /// The host must send a code that names a function: the entry point has
    /// no status to answer any other code with.
    pub fn init(&mut self, address: u32, clock: u32, function_code: u32) -> (status: u32)
        requires
            Function::recognizes(function_code),
        ensures
            exists|built: Result<A, ErrorCode>|
                {
                    &&& status == #[trigger] status_of(built)
                    &&& final(self)@ == old(self)@.reinitialized(
                        address,
                        clock,
                        Function::spec_from_code(function_code).unwrap(),
                        built,
                    )
                },
            status == STATUS_OK <==> final(self)@.initialized(),
    {
        let function = Function::from_code(function_code).unwrap();
        if self.is_initialized() {
            self.un_init();
        }
        let built = A::new(address, clock, function);
        let ghost outcome = match built {
            Ok(_) => Ok(()),
            Err(error) => Err(error),
        };
        self.calls = Ghost(
            self.calls@.push(Call::Construct { address, clock, function, outcome }),
        );
        self.install(built)
    }

    /// Completes `Init` with what the constructor returned: an instance is
    /// stored, an error leaves the slot empty and its code is the status.
    pub fn install(&mut self, built: Result<A, ErrorCode>) -> (status: u32)
        requires
            !old(self)@.initialized(),
        ensures
            final(self)@ == old(self)@.installed(built),
            status == status_of(built),
            status == STATUS_OK <==> built is Ok,
    {
        match built {
            Ok(instance) => {
                self.instance = Some(instance);
                STATUS_OK
            },
            Err(error) => error.get(),
        }
    }

    /// Entry point `UnInit`.
    ///
    /// Destroys the instance. Rejected, with nothing done, while there is
    /// none.
    pub fn un_init(&mut self) -> (status: u32)
        ensures
            final(self)@ == old(self)@.released(),
            status == if old(self)@.initialized() {
                STATUS_OK
            } else {
                STATUS_NOT_INITIALIZED
            },
    {
        if self.instance.is_none() {
            return STATUS_NOT_INITIALIZED;
        }
        self.instance = None;
        self.calls = Ghost(self.calls@.push(Call::Destroy));
        STATUS_OK
    }

    /// Entry point `EraseSector`.
    ///
    /// Invokes the sector-erase operation with `address`; the status is that
    /// of its outcome. Rejected, with nothing done, while the slot is empty.
    pub fn erase_sector(&mut self, address: u32) -> (status: u32)
        ensures
            !old(self)@.initialized() ==> status == STATUS_NOT_INITIALIZED && final(self)@ == old(
                self,
            )@,
            old(self)@.initialized() ==> final(self)@.initialized(),
            old(self)@.initialized() ==> exists|outcome: Outcome|
                {
                    &&& status == #[trigger] status_of(outcome)
                    &&& final(self)@.calls == old(self)@.calls.push(
                        Call::EraseSector { address, outcome },
                    )
                },
    {
        match &mut self.instance {
            None => STATUS_NOT_INITIALIZED,
            Some(instance) => {
                let outcome = instance.erase_sector(address);
                self.calls = Ghost(self.calls@.push(Call::EraseSector { address, outcome }));
                status_code(outcome)
            },
        }
    }

    /// Entry point `ProgramPage`.
    ///
    /// Invokes the program operation with `address` and a view of the first
    /// `size` bytes of `data`, the region the host prepared; the status is
    /// that of its outcome. Rejected, with nothing done, while the slot is
    /// empty.
    ///
    /// The host guarantees that the region holds `size` bytes.
    pub fn program_page(&mut self, address: u32, size: u32, data: &[u8]) -> (status: u32)
        requires
            size <= data@.len(),
        ensures
            !old(self)@.initialized() ==> status == STATUS_NOT_INITIALIZED && final(self)@ == old(
                self,
            )@,
            old(self)@.initialized() ==> final(self)@.initialized(),
            old(self)@.initialized() ==> exists|outcome: Outcome|
                {
                    &&& status == #[trigger] status_of(outcome)
                    &&& final(self)@.calls == old(self)@.calls.push(
                        Call::ProgramPage { address, data: data@.take(size as int), outcome },
                    )
                },
    {
        match &mut self.instance {
            None => STATUS_NOT_INITIALIZED,
            Some(instance) => {
                let page = slice_subrange(data, 0, size as usize);
                let outcome = instance.program_page(address, page);
                self.calls = Ghost(
                    self.calls@.push(Call::ProgramPage { address, data: page@, outcome }),
                );
                status_code(outcome)
            },
        }
    }
}

impl<A: EraseAll> AlgorithmSlot<A> {
    /// Entry point `EraseChip`.
    ///
    /// Invokes the erase-all operation; the status is that of its outcome.
    /// Rejected, with nothing done, while the slot is empty.
    pub fn erase_chip(&mut self) -> (status: u32)
        ensures
            !old(self)@.initialized() ==> status == STATUS_NOT_INITIALIZED && final(self)@ == old(
                self,
            )@,
            old(self)@.initialized() ==> final(self)@.initialized(),
            old(self)@.initialized() ==> exists|outcome: Outcome|
                {
                    &&& status == #[trigger] status_of(outcome)
                    &&& final(self)@.calls == old(self)@.calls.push(Call::EraseAll { outcome })
                },
    {
        match &mut self.instance {
            None => STATUS_NOT_INITIALIZED,
            Some(instance) => {
                let outcome = instance.erase_all();
                self.calls = Ghost(self.calls@.push(Call::EraseAll { outcome }));
                status_code(outcome)
            },
        }
    }
}

impl<A: Verify> AlgorithmSlot<A> {
    /// Entry point `Verify`.
    ///
    /// Invokes the verify operation with `address`, `size` and, where the
    /// host gave a region, a view of its first `size` bytes; where it gave
    /// none, the operation is invoked without a buffer to compare with. The
    /// status is that of the operation's outcome. Rejected, with nothing
    /// done, while the slot is empty.
    ///
    /// The host guarantees that a region it gives holds `size` bytes.
    pub fn verify(&mut self, address: u32, size: u32, data: Option<&[u8]>) -> (status: u32)
        requires
            data matches Some(region) ==> size <= region@.len(),
        ensures
            !old(self)@.initialized() ==> status == STATUS_NOT_INITIALIZED && final(self)@ == old(
                self,
            )@,
            old(self)@.initialized() ==> final(self)@.initialized(),
            old(self)@.initialized() ==> exists|outcome: Outcome|
                {
                    &&& status == #[trigger] status_of(outcome)
                    &&& final(self)@.calls == old(self)@.calls.push(
                        Call::Verify { address, size, expected: bounded(size, data), outcome },
                    )
                },
    {
        match &mut self.instance {
            None => STATUS_NOT_INITIALIZED,
            Some(instance) => {
                let expected = match data {
                    Some(region) => Some(slice_subrange(region, 0, size as usize)),
                    None => None,
                };
                let ghost handed = match expected {
                    Some(view) => Some(view@),
                    None => None,
                };
                let outcome = instance.verify(address, size, expected);
                self.calls = Ghost(
                    self.calls@.push(Call::Verify { address, size, expected: handed, outcome }),
                );
                status_code(outcome)
            },
        }
    }
}

} // verus!
