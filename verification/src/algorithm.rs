//! Consensus algorithm traits and adapters.

use vstd::prelude::*;

use crate::error::AlgorithmError;
use crate::error::InternalError;

verus! {

/// A value to be agreed upon between processes.
///
/// The engine never inspects a value; it only copies it into outgoing
/// messages and notifications.
pub trait Value: Sized {
    /// Returns a copy of the value.
    fn clone_value(&self) -> (r: Self)
        ensures
            r == *self,
    ;
}

impl Value for u64 {
    fn clone_value(&self) -> (r: Self)
        ensures
            r == *self,
    {
        *self
    }
}

impl Value for u32 {
    fn clone_value(&self) -> (r: Self)
        ensures
            r == *self,
    {
        *self
    }
}

impl Value for bool {
    fn clone_value(&self) -> (r: Self)
        ensures
            r == *self,
    {
        *self
    }
}

impl Value for String {
    fn clone_value(&self) -> (r: Self)
        ensures
            r == *self,
    {
        self.clone()
    }
}

/// A fallible conversion used to adapt an algorithm's inputs and outputs.
///
/// `Self: Adapt<S>` means a value of type `S` can be converted into a
/// `Self`, failing with an [`InternalError`] when the value does not
/// represent one. Each implementation fixes, as a specification function,
/// which values convert and to what; the executable conversion is bound to
/// it.
pub trait Adapt<S>: Sized {
    /// The value this conversion yields for the given input, or `None` when
    /// the input does not represent one.
    spec fn adapt_spec(value: S) -> Option<Self>;

    /// Converts the value, or reports why it does not convert.
    fn adapt(value: S) -> (r: Result<Self, InternalError>)
        ensures
            (match Self::adapt_spec(value) {
                Some(v) => r matches Ok(x) && x == v,
                None => r is Err,
            }),
    ;
}

/// A consensus algorithm.
///
/// An algorithm processes events with a given context, producing a list of
/// actions.
///
/// Events are the inputs of the algorithm: a message delivered by a peer, a
/// local decision, a timer expiry. Actions are its outputs: update the
/// stored context, send a message, notify the embedder. The context carries
/// all state that must be remembered between events; it is only changed by
/// the embedder applying an update action.
pub trait Algorithm {
    /// The event type representing all valid events for the algorithm.
    type Event;

    /// The action type representing all valid actions returned by the
    /// algorithm.
    type Action;

    /// The context type representing all algorithm-specific state which must
    /// be stored.
    type Context;

    /// Processes an event with a given context, producing a list of actions.
    fn event(&self, event: Self::Event, context: Self::Context) -> Result<
        Vec<Self::Action>,
        AlgorithmError,
    >;

    /// Wraps the algorithm so that it accepts events and contexts of the
    /// types `E` and `C` and produces actions of type `A`, going through the
    /// given conversions.
    fn into_algorithm<E, A, C>(self) -> (r: IntoAlgorithm<Self, E, A, C>) where
        Self: Sized,
        Self::Event: Adapt<E>,
        A: Adapt<Self::Action>,
        Self::Context: Adapt<C>,

        ensures
            r.inner == self,
    {
        IntoAlgorithm { inner: self, marker: core::marker::PhantomData }
    }
}

/// An algorithm that wraps an algorithm of another type, converting events
/// and contexts on the way in and actions on the way out.
///
/// This `struct` is returned by the [`Algorithm::into_algorithm`] method.
/// Its behavior is determined by the wrapped algorithm together with the
/// conversions the embedder supplies; a failing conversion surfaces as an
/// [`AlgorithmError::Internal`].
pub struct IntoAlgorithm<T, E, A, C> {
    /// The wrapped algorithm.
    pub inner: T,
    /// Marks the adapted event, action and context types.
    pub marker: core::marker::PhantomData<(E, A, C)>,
}

impl<T, E, A, C> Algorithm for IntoAlgorithm<T, E, A, C> where
    T: Algorithm,
    T::Event: Adapt<E>,
    A: Adapt<T::Action>,
    T::Context: Adapt<C>,
 {
    type Event = E;

    type Action = A;

    type Context = C;

    /// Processes an event by converting it and the context inward, running
    /// the wrapped algorithm, and converting its actions outward. A failing
    /// conversion surfaces as an internal error; a successful result is the
    /// elementwise conversion image, in order and in full, of an action list
    /// the wrapped algorithm can return for the converted inputs; and an
    /// error the wrapped algorithm returns passes through unchanged.
    fn event(&self, event: E, context: C) -> (r: Result<Vec<A>, AlgorithmError>)
        ensures
            (<T::Event as Adapt<E>>::adapt_spec(event) is None ==> r matches Err(
                AlgorithmError::Internal(_),
            )),
            ((<T::Event as Adapt<E>>::adapt_spec(event) is Some && <T::Context as Adapt<
                C,
            >>::adapt_spec(context) is None) ==> r matches Err(AlgorithmError::Internal(_))),
            (r matches Ok(actions) ==> exists|ie: T::Event, ic: T::Context, ra: Vec<T::Action>|
                {
                    &&& <T::Event as Adapt<E>>::adapt_spec(event) == Some(ie)
                    &&& <T::Context as Adapt<C>>::adapt_spec(context) == Some(ic)
                    &&& #[trigger] call_ensures(
                        <T as Algorithm>::event,
                        (&self.inner, ie, ic),
                        Ok(ra),
                    )
                    &&& actions@.len() == ra@.len()
                    &&& (forall|i: int|
                        0 <= i < ra@.len() ==> <A as Adapt<T::Action>>::adapt_spec(ra@[i]) == Some(
                            #[trigger] actions@[i],
                        ))
                }),
            (r matches Err(e) ==> (e matches AlgorithmError::Internal(_) || exists|
                ie: T::Event,
                ic: T::Context,
            |
                {
                    &&& <T::Event as Adapt<E>>::adapt_spec(event) == Some(ie)
                    &&& <T::Context as Adapt<C>>::adapt_spec(context) == Some(ic)
                    &&& #[trigger] call_ensures(
                        <T as Algorithm>::event,
                        (&self.inner, ie, ic),
                        Err::<Vec<T::Action>, AlgorithmError>(e),
                    )
                })),
    {
        let inner_event = match <T::Event as Adapt<E>>::adapt(event) {
            Ok(e) => e,
            Err(e) => {
                return Err(AlgorithmError::Internal(e));
            },
        };
        proof {
            assert(<T::Event as Adapt<E>>::adapt_spec(event) == Some(inner_event));
        }
        let ghost converted_event = inner_event;
        let inner_context = match <T::Context as Adapt<C>>::adapt(context) {
            Ok(c) => c,
            Err(e) => {
                return Err(AlgorithmError::Internal(e));
            },
        };
        proof {
            assert(<T::Context as Adapt<C>>::adapt_spec(context) == Some(inner_context));
        }
        let ghost converted_context = inner_context;
        // The call goes through a function value so that its possible
        // results can be spoken of in the contract.
        let inner_fn = <T as Algorithm>::event;
        let inner_result = inner_fn(&self.inner, inner_event, inner_context);
        let ghost ginner_result = inner_result;
        let mut inner_actions = match inner_result {
            Ok(actions) => actions,
            Err(e) => {
                proof {
                    assert(call_ensures(
                        <T as Algorithm>::event,
                        (&self.inner, converted_event, converted_context),
                        Err::<Vec<T::Action>, AlgorithmError>(e),
                    ));
                }
                return Err(e);
            },
        };
        let ghost inner_vec = inner_actions;
        let ghost inner_seq = inner_actions@;
        let mut actions: Vec<A> = Vec::new();
        while inner_actions.len() > 0
            invariant
                actions@.len() + inner_actions@.len() == inner_seq.len(),
                inner_actions@ == inner_seq.skip(actions@.len() as int),
                forall|j: int|
                    0 <= j < actions@.len() ==> <A as Adapt<T::Action>>::adapt_spec(inner_seq[j])
                        == Some(#[trigger] actions@[j]),
            decreases inner_actions@.len(),
        {
            let ghost consumed = actions@.len() as int;
            let inner_action = inner_actions.remove(0);
            proof {
                assert(inner_action == inner_seq.skip(consumed)[0]);
                assert(inner_seq.skip(consumed)[0] == inner_seq[consumed]);
            }
            match <A as Adapt<T::Action>>::adapt(inner_action) {
                Ok(a) => {
                    proof {
                        assert(<A as Adapt<T::Action>>::adapt_spec(inner_seq[consumed]) == Some(a));
                    }
                    actions.push(a);
                },
                Err(e) => {
                    return Err(AlgorithmError::Internal(e));
                },
            }
            proof {
                assert(inner_actions@ =~= inner_seq.skip(consumed + 1));
            }
        }
        let r = Ok(actions);
        proof {
            assert(r matches Ok(w) && w == actions);
            assert(ginner_result matches Ok(w) && w == inner_vec);
            assert(call_ensures(
                <T as Algorithm>::event,
                (&self.inner, converted_event, converted_context),
                Ok(inner_vec),
            ));
        }
        r
    }
}

} // verus!
