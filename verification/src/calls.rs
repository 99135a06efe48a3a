//! Functions whose calls are counted.

use vstd::prelude::*;

verus! {

/// A function together with how often it was called so far. The function cannot be taken
/// out again, so that each number stands for one call.
pub struct Calls<F> {
    function: F,
    count: usize,
}

impl<F> Calls<F> {
    /// The function that is called.
    pub closed spec fn function(self) -> F {
        self.function
    }

    /// How many calls were made.
    pub closed spec fn count(self) -> nat {
        self.count as nat
    }

    /// A function that was not called yet.
    pub fn new(function: F) -> (calls: Calls<F>)
        ensures
            calls.function() == function,
            calls.count() == 0,
    {
        Calls { function, count: 0 }
    }

    /// The next call, without arguments.
    pub fn next<R>(&mut self) -> (result: R)
        where
            F: FnMut() -> R,
        requires
            call_requires(old(self).function(), ()),
            old(self).count() < usize::MAX,
        ensures
            call_ensures(old(self).function(), (), result),
            final(self).function() == old(self).function(),
            final(self).count() == old(self).count() + 1,
    {
        let result = (self.function)();
        self.count = self.count + 1;
        result
    }

    /// The next call, with one argument.
    pub fn next_with<A, R>(&mut self, a: A) -> (result: R)
        where
            F: FnMut(A) -> R,
        requires
            call_requires(old(self).function(), (a,)),
            old(self).count() < usize::MAX,
        ensures
            call_ensures(old(self).function(), (a,), result),
            final(self).function() == old(self).function(),
            final(self).count() == old(self).count() + 1,
    {
        let result = (self.function)(a);
        self.count = self.count + 1;
        result
    }

    /// The next call, with two arguments.
    pub fn next_with_two<A, B, R>(&mut self, a: A, b: B) -> (result: R)
        where
            F: FnMut(A, B) -> R,
        requires
            call_requires(old(self).function(), (a, b)),
            old(self).count() < usize::MAX,
        ensures
            call_ensures(old(self).function(), (a, b), result),
            final(self).function() == old(self).function(),
            final(self).count() == old(self).count() + 1,
    {
        let result = (self.function)(a, b);
        self.count = self.count + 1;
        result
    }
}

/// `result` came out of call `i` of `function`, counted from 0.
pub open spec fn nth_call<R, F: FnMut() -> R>(function: F, i: nat, result: R) -> bool {
    exists|calls: &mut Calls<F>|
        {
            &&& #[trigger] call_ensures(Calls::<F>::next::<R>, (calls,), result)
            &&& (*calls).function() == function
            &&& (*calls).count() == i
        }
}

/// `result` came out of call `i` of `function`, counted from 0, with the argument `a`.
pub open spec fn nth_call_with<A, R, F: FnMut(A) -> R>(
    function: F,
    i: nat,
    a: A,
    result: R,
) -> bool {
    exists|calls: &mut Calls<F>|
        {
            &&& #[trigger] call_ensures(Calls::<F>::next_with::<A, R>, (calls, a), result)
            &&& (*calls).function() == function
            &&& (*calls).count() == i
        }
}

/// `result` came out of call `i` of `function`, counted from 0, with the arguments `a`
/// and `b`.
pub open spec fn nth_call_with_two<A, B, R, F: FnMut(A, B) -> R>(
    function: F,
    i: nat,
    a: A,
    b: B,
    result: R,
) -> bool {
    exists|calls: &mut Calls<F>|
        {
            &&& #[trigger] call_ensures(
                Calls::<F>::next_with_two::<A, B, R>,
                (calls, a, b),
                result,
            )
            &&& (*calls).function() == function
            &&& (*calls).count() == i
        }
}

} // verus!
