//! [`MessageHandler`] trait and implementations, used to handle the message events.
//! It has a flexible axum-like API, you can put any arguments as long as it implements
//! the [`FromMessageParts`] trait or the [`FromMessage`] trait for the last argument.
//!
//! All the types that implement [`FromMessageParts`] also implement [`FromMessage`].
//!
//! You can also implement the [`FromMessageParts`] and [`FromMessage`] traits for your own types.
//!
//! Handlers can be _optionally_ async: what an async handler returns is a future,
//! which whoever calls the handler has to spawn.
use super::private;
use super::MakeErasedHandler;
use crate::packet::payload_bytes;
use serde_json::Value;
use std::future::Future;
use std::marker::PhantomData;
use vstd::prelude::*;

verus! {

/// A Type Erased [`MessageHandler`] so it can be stored in a HashMap
pub type BoxedMessageHandler<S, R> = Box<dyn ErasedMessageHandler<S, R>>;

/// A handler of messages whose arguments are not known any more.
pub trait ErasedMessageHandler<S, R>: Send + Sync + 'static {
    /// The handler may be called.
    spec fn ready(&self) -> bool;

    /// The call with the given message may end with `output`.
    spec fn handles(
        &self,
        s: S,
        v: Value,
        p: Vec<Vec<u8>>,
        ack_id: Option<i64>,
        output: Option<R>,
    ) -> bool;

    /// Calls the handler.
    fn call(&self, s: S, v: Value, p: Vec<Vec<u8>>, ack_id: Option<i64>) -> (output: Option<R>)
        requires
            self.ready(),
        ensures
            self.handles(s, v, p, ack_id, output),
    ;
}

/// Define a handler for the connect event.
/// It is implemented for closures with up to 16 arguments. They must implement the
/// [`FromMessageParts`] trait or the [`FromMessage`] trait for the last one.
pub trait MessageHandler<S, T>: Send + Sync + 'static {
    /// What the closure returns
    type Output;

    /// The closure may be called with whatever is extracted.
    spec fn ready(&self) -> bool;

    /// The call with the given message may end with `output`: what the closure
    /// returned for the extracted arguments, or `None` if it was not called
    /// because an argument could not be extracted.
    spec fn handles(
        &self,
        s: S,
        v: Value,
        p: Vec<Vec<u8>>,
        ack_id: Option<i64>,
        output: Option<Self::Output>,
    ) -> bool;

    /// Call the handler with the given arguments
    fn call(&self, s: S, v: Value, p: Vec<Vec<u8>>, ack_id: Option<i64>) -> (output: Option<
        Self::Output,
    >)
        requires
            self.ready(),
        ensures
            self.handles(s, v, p, ack_id, output),
    ;

    /// The arguments of the handler
    fn phantom(&self) -> (marker: PhantomData<T>) {
        PhantomData
    }
}

impl<S, T, H> MakeErasedHandler<H, S, T> where
    S: Send + Sync + 'static,
    T: Send + Sync + 'static,
    H: MessageHandler<S, T>,
 {
    /// The handler without the types of its arguments.
    pub fn new_message_boxed(inner: H) -> (boxed: Box<dyn ErasedMessageHandler<S, H::Output>>)
        ensures
            boxed.ready() == inner.ready(),
            forall|s: S, v: Value, p: Vec<Vec<u8>>, ack_id: Option<i64>, output: Option<H::Output>|
                #[trigger] boxed.handles(s, v, p, ack_id, output) == inner.handles(
                    s,
                    v,
                    p,
                    ack_id,
                    output,
                ),
    {
        let made: MakeErasedHandler<H, S, T> = MakeErasedHandler::new(inner);
        return Box::new(made);
    }
}

impl<S, T, H> ErasedMessageHandler<S, H::Output> for MakeErasedHandler<H, S, T> where
    S: Send + Sync + 'static,
    T: Send + Sync + 'static,
    H: MessageHandler<S, T>,
 {
    open spec fn ready(&self) -> bool {
        self.handler().ready()
    }

    open spec fn handles(
        &self,
        s: S,
        v: Value,
        p: Vec<Vec<u8>>,
        ack_id: Option<i64>,
        output: Option<H::Output>,
    ) -> bool {
        self.handler().handles(s, v, p, ack_id, output)
    }

    fn call(&self, s: S, v: Value, p: Vec<Vec<u8>>, ack_id: Option<i64>) -> (output: Option<
        H::Output,
    >) {
        self.handler.call(s, v, p, ack_id)
    }
}

/// General message to send through channel
pub struct GeneralMessage<S> {
    /// The key of the socket that received the message
    pub key: String,
    /// The socket that received the message
    pub socket: S,
    /// The message
    pub value: Value,
    /// The binary data
    pub params: Vec<Vec<u8>>,
    /// The ack id
    pub ack_id: Option<i64>,
}

impl<S: Clone> Clone for GeneralMessage<S> {
    fn clone(&self) -> (copy: GeneralMessage<S>)
        ensures
            copy.key == self.key,
            cloned(self.socket, copy.socket),
            copy.value == self.value,
            payload_bytes(copy.params@) == payload_bytes(self.params@),
            copy.ack_id == self.ack_id,
    {
        let params = self.params.clone();
        assert(payload_bytes(params@) =~= payload_bytes(self.params@));
        GeneralMessage {
            key: self.key.clone(),
            socket: self.socket.clone(),
            value: self.value.clone(),
            params,
            ack_id: self.ack_id,
        }
    }
}

/// A trait used to extract arguments from the message event.
/// The `Error` associated type is used to return an error if the extraction fails,
/// in this case the handler is not called.
pub trait FromMessageParts<S>: Sized {
    /// The error type returned by the extractor
    type Error;

    /// The extraction from the message may end with `part`, and leave the value
    /// `v_left` and the binary data `p_left` for the next argument. An extractor
    /// that does not say it may end with anything.
    open spec fn extracts_part(
        s: S,
        v: Value,
        p: Vec<Vec<u8>>,
        ack_id: Option<i64>,
        part: Result<Self, Self::Error>,
        v_left: Value,
        p_left: Vec<Vec<u8>>,
    ) -> bool {
        true
    }

    /// Extract the arguments from the message event.
    /// If it fails, the handler is not called.
    fn from_message_parts(
        s: &S,
        v: &mut Value,
        p: &mut Vec<Vec<u8>>,
        ack_id: &Option<i64>,
    ) -> (part: Result<Self, Self::Error>)
        ensures
            Self::extracts_part(
                *s,
                *old(v),
                *old(p),
                *ack_id,
                part,
                *final(v),
                *final(p),
            ),
    ;
}

/// A trait used to extract and **consume** arguments from the message event.
/// The `Error` associated type is used to return an error if the extraction fails,
/// in this case the handler is not called.
pub trait FromMessage<S, M = private::ViaRequest>: Sized {
    /// The error type returned by the extractor
    type Error;

    /// The extraction from the message may end with `extracted`. An extractor that
    /// does not say it may end with anything.
    open spec fn extracts(
        s: S,
        v: Value,
        p: Vec<Vec<u8>>,
        ack_id: Option<i64>,
        extracted: Result<Self, Self::Error>,
    ) -> bool {
        true
    }

    /// Extract the arguments from the message event.
    /// If it fails, the handler is not called
    fn from_message(s: S, v: Value, p: Vec<Vec<u8>>, ack_id: Option<i64>) -> (extracted: Result<
        Self,
        Self::Error,
    >)
        ensures
            Self::extracts(s, v, p, ack_id, extracted),
    ;
}

/// All the types that implement [`FromMessageParts`] also implement [`FromMessage`]
impl<S, T> FromMessage<S, private::ViaParts> for T where T: FromMessageParts<S> {
    type Error = T::Error;

    open spec fn extracts(
        s: S,
        v: Value,
        p: Vec<Vec<u8>>,
        ack_id: Option<i64>,
        extracted: Result<T, T::Error>,
    ) -> bool {
        exists|v_left: Value, p_left: Vec<Vec<u8>>| #[trigger]
            T::extracts_part(s, v, p, ack_id, extracted, v_left, p_left)
    }

    fn from_message(s: S, v: Value, p: Vec<Vec<u8>>, ack_id: Option<i64>) -> (extracted: Result<
        T,
        T::Error,
    >) {
        let mut value = v;
        let mut params = p;
        T::from_message_parts(&s, &mut value, &mut params, &ack_id)
    }
}

/// What the extraction of an argument ends with.
pub type Extracted<S, M, T> = Result<T, <T as FromMessage<S, M>>::Error>;

/// The first argument of a handler and the others.
pub struct Args<T, R>(pub T, pub R);

/// Which argument of a handler could not be extracted.
#[derive(Debug)]
pub enum ArgsError<E, F> {
    /// The first one
    First(E),
    /// One of the others
    Rest(F),
}

/// The arguments of a handler are extracted one after the other. Each of them
/// gets what the one before left of the message, and with the first one that
/// fails the extraction is over.
impl<S, M, T, R> FromMessage<S, (private::ViaParts, M)> for Args<T, R> where
    T: FromMessageParts<S>,
    R: FromMessage<S, M>,
 {
    type Error = ArgsError<T::Error, R::Error>;

    open spec fn extracts(
        s: S,
        v: Value,
        p: Vec<Vec<u8>>,
        ack_id: Option<i64>,
        extracted: Result<Args<T, R>, ArgsError<T::Error, R::Error>>,
    ) -> bool {
        exists|first: Result<T, T::Error>, v_left: Value, p_left: Vec<Vec<u8>>|
            {
                &&& #[trigger] T::extracts_part(s, v, p, ack_id, first, v_left, p_left)
                &&& match first {
                    Ok(first) => exists|rest: Result<R, R::Error>|
                        {
                            &&& #[trigger] R::extracts(s, v_left, p_left, ack_id, rest)
                            &&& extracted == (match rest {
                                Ok(rest) => Ok::<_, ArgsError<T::Error, R::Error>>(
                                    Args(first, rest),
                                ),
                                Err(error) => Err(ArgsError::Rest(error)),
                            })
                        },
                    Err(error) => extracted == Err::<Args<T, R>, _>(
                        ArgsError::<T::Error, R::Error>::First(error),
                    ),
                }
            }
    }

    fn from_message(s: S, v: Value, p: Vec<Vec<u8>>, ack_id: Option<i64>) -> (extracted: Result<
        Args<T, R>,
        ArgsError<T::Error, R::Error>,
    >) {
        let mut value = v;
        let mut params = p;
        let first = T::from_message_parts(&s, &mut value, &mut params, &ack_id);
        match first {
            Ok(first) => {
                let rest = R::from_message(s, value, params, ack_id);
                match rest {
                    Ok(rest) => Ok(Args(first, rest)),
                    Err(error) => Err(ArgsError::Rest(error)),
                }
            },
            Err(error) => Err(ArgsError::First(error)),
        }
    }
}

/// Empty async handler, which returns a future to be spawned
impl<S, F, Fut> MessageHandler<S, (private::Async,)> for F where
    F: FnOnce() -> Fut + Send + Sync + Clone + 'static,
    Fut: Future<Output = ()> + Send + 'static,
 {
    type Output = Fut;

    open spec fn ready(&self) -> bool {
        forall|f: F| #[trigger] cloned(*self, f) ==> call_requires(f, ())
    }

    open spec fn handles(
        &self,
        s: S,
        v: Value,
        p: Vec<Vec<u8>>,
        ack_id: Option<i64>,
        output: Option<Fut>,
    ) -> bool {
        output matches Some(output) && exists|f: F| #[trigger]
            cloned(*self, f) && call_ensures(f, (), output)
    }

    fn call(&self, _s: S, _v: Value, _p: Vec<Vec<u8>>, _ack_id: Option<i64>) -> (output: Option<
        Fut,
    >) {
        let f = self.clone();
        assert(cloned(*self, f));
        Some(f())
    }
}

/// Empty sync handler
impl<S, F> MessageHandler<S, (private::Sync,)> for F where
    F: FnOnce() + Send + Sync + Clone + 'static,
 {
    type Output = ();

    open spec fn ready(&self) -> bool {
        forall|f: F| #[trigger] cloned(*self, f) ==> call_requires(f, ())
    }

    open spec fn handles(
        &self,
        s: S,
        v: Value,
        p: Vec<Vec<u8>>,
        ack_id: Option<i64>,
        output: Option<()>,
    ) -> bool {
        output matches Some(output) && exists|f: F| #[trigger]
            cloned(*self, f) && call_ensures(f, (), output)
    }

    fn call(&self, _s: S, _v: Value, _p: Vec<Vec<u8>>, _ack_id: Option<i64>) -> (output: Option<
        (),
    >) {
        let f = self.clone();
        assert(cloned(*self, f));
        Some(f())
    }
}

/// The arguments of a handler with 2 arguments
pub type Args2<T1, T2> = Args<T1, T2>;

/// How 2 arguments are extracted, the last one via `M`
pub type Via2<M> = (private::ViaParts, M);

/// The arguments of a handler with 3 arguments
pub type Args3<T1, T2, T3> = Args<T1, Args2<T2, T3>>;

/// How 3 arguments are extracted, the last one via `M`
pub type Via3<M> = (private::ViaParts, Via2<M>);

/// The arguments of a handler with 4 arguments
pub type Args4<T1, T2, T3, T4> = Args<T1, Args3<T2, T3, T4>>;

/// How 4 arguments are extracted, the last one via `M`
pub type Via4<M> = (private::ViaParts, Via3<M>);

/// The arguments of a handler with 5 arguments
pub type Args5<T1, T2, T3, T4, T5> = Args<T1, Args4<T2, T3, T4, T5>>;

/// How 5 arguments are extracted, the last one via `M`
pub type Via5<M> = (private::ViaParts, Via4<M>);

/// The arguments of a handler with 6 arguments
pub type Args6<T1, T2, T3, T4, T5, T6> = Args<T1, Args5<T2, T3, T4, T5, T6>>;

/// How 6 arguments are extracted, the last one via `M`
pub type Via6<M> = (private::ViaParts, Via5<M>);

/// The arguments of a handler with 7 arguments
pub type Args7<T1, T2, T3, T4, T5, T6, T7> = Args<T1, Args6<T2, T3, T4, T5, T6, T7>>;

/// How 7 arguments are extracted, the last one via `M`
pub type Via7<M> = (private::ViaParts, Via6<M>);

/// The arguments of a handler with 8 arguments
pub type Args8<T1, T2, T3, T4, T5, T6, T7, T8> = Args<T1, Args7<T2, T3, T4, T5, T6, T7, T8>>;

/// How 8 arguments are extracted, the last one via `M`
pub type Via8<M> = (private::ViaParts, Via7<M>);

/// The arguments of a handler with 9 arguments
pub type Args9<T1, T2, T3, T4, T5, T6, T7, T8, T9> = Args<
    T1,
    Args8<T2, T3, T4, T5, T6, T7, T8, T9>,
>;

/// How 9 arguments are extracted, the last one via `M`
pub type Via9<M> = (private::ViaParts, Via8<M>);

/// The arguments of a handler with 10 arguments
pub type Args10<T1, T2, T3, T4, T5, T6, T7, T8, T9, T10> = Args<
    T1,
    Args9<T2, T3, T4, T5, T6, T7, T8, T9, T10>,
>;

/// How 10 arguments are extracted, the last one via `M`
pub type Via10<M> = (private::ViaParts, Via9<M>);

/// The arguments of a handler with 11 arguments
pub type Args11<T1, T2, T3, T4, T5, T6, T7, T8, T9, T10, T11> = Args<
    T1,
    Args10<T2, T3, T4, T5, T6, T7, T8, T9, T10, T11>,
>;

/// How 11 arguments are extracted, the last one via `M`
pub type Via11<M> = (private::ViaParts, Via10<M>);

/// The arguments of a handler with 12 arguments
pub type Args12<T1, T2, T3, T4, T5, T6, T7, T8, T9, T10, T11, T12> = Args<
    T1,
    Args11<T2, T3, T4, T5, T6, T7, T8, T9, T10, T11, T12>,
>;

/// How 12 arguments are extracted, the last one via `M`
pub type Via12<M> = (private::ViaParts, Via11<M>);

/// The arguments of a handler with 13 arguments
pub type Args13<T1, T2, T3, T4, T5, T6, T7, T8, T9, T10, T11, T12, T13> = Args<
    T1,
    Args12<T2, T3, T4, T5, T6, T7, T8, T9, T10, T11, T12, T13>,
>;

/// How 13 arguments are extracted, the last one via `M`
pub type Via13<M> = (private::ViaParts, Via12<M>);

/// The arguments of a handler with 14 arguments
pub type Args14<T1, T2, T3, T4, T5, T6, T7, T8, T9, T10, T11, T12, T13, T14> = Args<
    T1,
    Args13<T2, T3, T4, T5, T6, T7, T8, T9, T10, T11, T12, T13, T14>,
>;

/// How 14 arguments are extracted, the last one via `M`
pub type Via14<M> = (private::ViaParts, Via13<M>);

/// The arguments of a handler with 15 arguments
pub type Args15<T1, T2, T3, T4, T5, T6, T7, T8, T9, T10, T11, T12, T13, T14, T15> = Args<
    T1,
    Args14<T2, T3, T4, T5, T6, T7, T8, T9, T10, T11, T12, T13, T14, T15>,
>;

/// How 15 arguments are extracted, the last one via `M`
pub type Via15<M> = (private::ViaParts, Via14<M>);

/// The arguments of a handler with 16 arguments
pub type Args16<T1, T2, T3, T4, T5, T6, T7, T8, T9, T10, T11, T12, T13, T14, T15, T16> = Args<
    T1,
    Args15<T2, T3, T4, T5, T6, T7, T8, T9, T10, T11, T12, T13, T14, T15, T16>,
>;

/// How 16 arguments are extracted, the last one via `M`
pub type Via16<M> = (private::ViaParts, Via15<M>);

/// A copy of the handler, called with the argument, may return `output`.
pub open spec fn called1<F, R, T1>(handler: F, t1: T1, output: R) -> bool where
    F: FnOnce(T1) -> R + Clone,
 {
    exists|f: F| cloned(handler, f) && #[trigger] call_ensures(f, (t1,), output)
}

/// Sync handler with 1 argument
impl<S, M, F, T1> MessageHandler<S, (private::Sync, M, T1)> for F where
    F: FnOnce(T1) + Send + Sync + Clone + 'static,
    T1: FromMessage<S, M> + Send,
 {
    type Output = ();

    open spec fn ready(&self) -> bool {
        forall|f: F, t1: T1|
            cloned(*self, f) ==> #[trigger] call_requires(f, (t1,))
    }

    open spec fn handles(
        &self,
        s: S,
        v: Value,
        p: Vec<Vec<u8>>,
        ack_id: Option<i64>,
        output: Option<()>,
    ) -> bool {
        exists|extracted: Extracted<S, M, T1>|
            {
                &&& #[trigger] <_ as FromMessage<S, M>>::extracts(s, v, p, ack_id, extracted)
                &&& match extracted {
                    Ok(t1) => output matches Some(output) && called1(*self, t1, output),
                    Err(_) => output is None,
                }
            }
    }

    fn call(&self, s: S, v: Value, p: Vec<Vec<u8>>, ack_id: Option<i64>) -> (output: Option<()>) {
        let extracted: Extracted<S, M, T1> =
            <_ as FromMessage<S, M>>::from_message(s, v, p, ack_id);
        match extracted {
            Ok(t1) => {
                let f = self.clone();
                let output = f(t1);
                assert(cloned(*self, f) && call_ensures(f, (t1,), output));
                assert(called1(*self, t1, output));
                Some(output)
            },
            Err(_) => None,
        }
    }
}

/// Async handler with 1 argument
impl<S, M, F, Fut, T1> MessageHandler<S, (private::Async, M, T1)> for F where
    F: FnOnce(T1) -> Fut + Send + Sync + Clone + 'static,
    Fut: Future<Output = ()> + Send + 'static,
    T1: FromMessage<S, M> + Send,
 {
    type Output = Fut;

    open spec fn ready(&self) -> bool {
        forall|f: F, t1: T1|
            cloned(*self, f) ==> #[trigger] call_requires(f, (t1,))
    }

    open spec fn handles(
        &self,
        s: S,
        v: Value,
        p: Vec<Vec<u8>>,
        ack_id: Option<i64>,
        output: Option<Fut>,
    ) -> bool {
        exists|extracted: Extracted<S, M, T1>|
            {
                &&& #[trigger] <_ as FromMessage<S, M>>::extracts(s, v, p, ack_id, extracted)
                &&& match extracted {
                    Ok(t1) => output matches Some(output) && called1(*self, t1, output),
                    Err(_) => output is None,
                }
            }
    }

    fn call(&self, s: S, v: Value, p: Vec<Vec<u8>>, ack_id: Option<i64>) -> (output: Option<Fut>) {
        let extracted: Extracted<S, M, T1> =
            <_ as FromMessage<S, M>>::from_message(s, v, p, ack_id);
        match extracted {
            Ok(t1) => {
                let f = self.clone();
                let output = f(t1);
                assert(cloned(*self, f) && call_ensures(f, (t1,), output));
                assert(called1(*self, t1, output));
                Some(output)
            },
            Err(_) => None,
        }
    }
}

/// A copy of the handler, called with the arguments, may return `output`.
pub open spec fn called2<F, R, T1, T2>(handler: F, t1: T1, t2: T2, output: R) -> bool where
    F: FnOnce(T1, T2) -> R + Clone,
 {
    exists|f: F| cloned(handler, f) && #[trigger] call_ensures(f, (t1, t2), output)
}

/// Sync handler with 2 arguments
impl<S, M, F, T1, T2> MessageHandler<S, (private::Sync, M, T1, T2)> for F where
    F: FnOnce(T1, T2) + Send + Sync + Clone + 'static,
    T1: FromMessageParts<S> + Send,
    T2: FromMessage<S, M> + Send,
 {
    type Output = ();

    open spec fn ready(&self) -> bool {
        forall|f: F, t1: T1, t2: T2|
            cloned(*self, f) ==> #[trigger] call_requires(f, (t1, t2))
    }

    open spec fn handles(
        &self,
        s: S,
        v: Value,
        p: Vec<Vec<u8>>,
        ack_id: Option<i64>,
        output: Option<()>,
    ) -> bool {
        exists|extracted: Extracted<S, Via2<M>, Args2<T1, T2>>|
            {
                &&& #[trigger] <_ as FromMessage<S, Via2<M>>>::extracts(s, v, p, ack_id, extracted)
                &&& match extracted {
                    Ok(Args(t1, t2)) => {
                        output matches Some(output) && called2(*self, t1, t2, output)
                    },
                    Err(_) => output is None,
                }
            }
    }

    fn call(&self, s: S, v: Value, p: Vec<Vec<u8>>, ack_id: Option<i64>) -> (output: Option<()>) {
        let extracted: Extracted<S, Via2<M>, Args2<T1, T2>> =
            <_ as FromMessage<S, Via2<M>>>::from_message(s, v, p, ack_id);
        match extracted {
            Ok(Args(t1, t2)) => {
                let f = self.clone();
                let output = f(t1, t2);
                assert(cloned(*self, f) && call_ensures(f, (t1, t2), output));
                assert(called2(*self, t1, t2, output));
                Some(output)
            },
            Err(_) => None,
        }
    }
}

/// Async handler with 2 arguments
impl<S, M, F, Fut, T1, T2> MessageHandler<S, (private::Async, M, T1, T2)> for F where
    F: FnOnce(T1, T2) -> Fut + Send + Sync + Clone + 'static,
    Fut: Future<Output = ()> + Send + 'static,
    T1: FromMessageParts<S> + Send,
    T2: FromMessage<S, M> + Send,
 {
    type Output = Fut;

    open spec fn ready(&self) -> bool {
        forall|f: F, t1: T1, t2: T2|
            cloned(*self, f) ==> #[trigger] call_requires(f, (t1, t2))
    }

    open spec fn handles(
        &self,
        s: S,
        v: Value,
        p: Vec<Vec<u8>>,
        ack_id: Option<i64>,
        output: Option<Fut>,
    ) -> bool {
        exists|extracted: Extracted<S, Via2<M>, Args2<T1, T2>>|
            {
                &&& #[trigger] <_ as FromMessage<S, Via2<M>>>::extracts(s, v, p, ack_id, extracted)
                &&& match extracted {
                    Ok(Args(t1, t2)) => {
                        output matches Some(output) && called2(*self, t1, t2, output)
                    },
                    Err(_) => output is None,
                }
            }
    }

    fn call(&self, s: S, v: Value, p: Vec<Vec<u8>>, ack_id: Option<i64>) -> (output: Option<Fut>) {
        let extracted: Extracted<S, Via2<M>, Args2<T1, T2>> =
            <_ as FromMessage<S, Via2<M>>>::from_message(s, v, p, ack_id);
        match extracted {
            Ok(Args(t1, t2)) => {
                let f = self.clone();
                let output = f(t1, t2);
                assert(cloned(*self, f) && call_ensures(f, (t1, t2), output));
                assert(called2(*self, t1, t2, output));
                Some(output)
            },
            Err(_) => None,
        }
    }
}

/// A copy of the handler, called with the arguments, may return `output`.
pub open spec fn called3<F, R, T1, T2, T3>(
    handler: F, t1: T1, t2: T2, t3: T3, output: R,
) -> bool where
    F: FnOnce(T1, T2, T3) -> R + Clone,
 {
    exists|f: F| cloned(handler, f) && #[trigger] call_ensures(f, (t1, t2, t3), output)
}

/// Sync handler with 3 arguments
impl<S, M, F, T1, T2, T3> MessageHandler<S, (private::Sync, M, T1, T2, T3)> for F where
    F: FnOnce(T1, T2, T3) + Send + Sync + Clone + 'static,
    T1: FromMessageParts<S> + Send,
    T2: FromMessageParts<S> + Send,
    T3: FromMessage<S, M> + Send,
 {
    type Output = ();

    open spec fn ready(&self) -> bool {
        forall|f: F, t1: T1, t2: T2, t3: T3|
            cloned(*self, f) ==> #[trigger] call_requires(f, (t1, t2, t3))
    }

    open spec fn handles(
        &self,
        s: S,
        v: Value,
        p: Vec<Vec<u8>>,
        ack_id: Option<i64>,
        output: Option<()>,
    ) -> bool {
        exists|extracted: Extracted<S, Via3<M>, Args3<T1, T2, T3>>|
            {
                &&& #[trigger] <_ as FromMessage<S, Via3<M>>>::extracts(s, v, p, ack_id, extracted)
                &&& match extracted {
                    Ok(Args(t1, Args(t2, t3))) => {
                        output matches Some(output) && called3(*self, t1, t2, t3, output)
                    },
                    Err(_) => output is None,
                }
            }
    }

    fn call(&self, s: S, v: Value, p: Vec<Vec<u8>>, ack_id: Option<i64>) -> (output: Option<()>) {
        let extracted: Extracted<S, Via3<M>, Args3<T1, T2, T3>> =
            <_ as FromMessage<S, Via3<M>>>::from_message(s, v, p, ack_id);
        match extracted {
            Ok(Args(t1, Args(t2, t3))) => {
                let f = self.clone();
                let output = f(t1, t2, t3);
                assert(cloned(*self, f) && call_ensures(f, (t1, t2, t3), output));
                assert(called3(*self, t1, t2, t3, output));
                Some(output)
            },
            Err(_) => None,
        }
    }
}

/// Async handler with 3 arguments
impl<S, M, F, Fut, T1, T2, T3> MessageHandler<S, (private::Async, M, T1, T2, T3)> for F where
    F: FnOnce(T1, T2, T3) -> Fut + Send + Sync + Clone + 'static,
    Fut: Future<Output = ()> + Send + 'static,
    T1: FromMessageParts<S> + Send,
    T2: FromMessageParts<S> + Send,
    T3: FromMessage<S, M> + Send,
 {
    type Output = Fut;

    open spec fn ready(&self) -> bool {
        forall|f: F, t1: T1, t2: T2, t3: T3|
            cloned(*self, f) ==> #[trigger] call_requires(f, (t1, t2, t3))
    }

    open spec fn handles(
        &self,
        s: S,
        v: Value,
        p: Vec<Vec<u8>>,
        ack_id: Option<i64>,
        output: Option<Fut>,
    ) -> bool {
        exists|extracted: Extracted<S, Via3<M>, Args3<T1, T2, T3>>|
            {
                &&& #[trigger] <_ as FromMessage<S, Via3<M>>>::extracts(s, v, p, ack_id, extracted)
                &&& match extracted {
                    Ok(Args(t1, Args(t2, t3))) => {
                        output matches Some(output) && called3(*self, t1, t2, t3, output)
                    },
                    Err(_) => output is None,
                }
            }
    }

    fn call(&self, s: S, v: Value, p: Vec<Vec<u8>>, ack_id: Option<i64>) -> (output: Option<Fut>) {
        let extracted: Extracted<S, Via3<M>, Args3<T1, T2, T3>> =
            <_ as FromMessage<S, Via3<M>>>::from_message(s, v, p, ack_id);
        match extracted {
            Ok(Args(t1, Args(t2, t3))) => {
                let f = self.clone();
                let output = f(t1, t2, t3);
                assert(cloned(*self, f) && call_ensures(f, (t1, t2, t3), output));
                assert(called3(*self, t1, t2, t3, output));
                Some(output)
            },
            Err(_) => None,
        }
    }
}

/// A copy of the handler, called with the arguments, may return `output`.
pub open spec fn called4<F, R, T1, T2, T3, T4>(
    handler: F, t1: T1, t2: T2, t3: T3, t4: T4, output: R,
) -> bool where
    F: FnOnce(T1, T2, T3, T4) -> R + Clone,
 {
    exists|f: F| cloned(handler, f) && #[trigger] call_ensures(f, (t1, t2, t3, t4), output)
}

/// Sync handler with 4 arguments
impl<S, M, F, T1, T2, T3, T4> MessageHandler<S, (private::Sync, M, T1, T2, T3, T4)> for F where
    F: FnOnce(T1, T2, T3, T4) + Send + Sync + Clone + 'static,
    T1: FromMessageParts<S> + Send,
    T2: FromMessageParts<S> + Send,
    T3: FromMessageParts<S> + Send,
    T4: FromMessage<S, M> + Send,
 {
    type Output = ();

    open spec fn ready(&self) -> bool {
        forall|f: F, t1: T1, t2: T2, t3: T3, t4: T4|
            cloned(*self, f) ==> #[trigger] call_requires(f, (t1, t2, t3, t4))
    }

    open spec fn handles(
        &self,
        s: S,
        v: Value,
        p: Vec<Vec<u8>>,
        ack_id: Option<i64>,
        output: Option<()>,
    ) -> bool {
        exists|extracted: Extracted<S, Via4<M>, Args4<T1, T2, T3, T4>>|
            {
                &&& #[trigger] <_ as FromMessage<S, Via4<M>>>::extracts(s, v, p, ack_id, extracted)
                &&& match extracted {
                    Ok(Args(t1, Args(t2, Args(t3, t4)))) => {
                        output matches Some(output) && called4(*self, t1, t2, t3, t4, output)
                    },
                    Err(_) => output is None,
                }
            }
    }

    fn call(&self, s: S, v: Value, p: Vec<Vec<u8>>, ack_id: Option<i64>) -> (output: Option<()>) {
        let extracted: Extracted<S, Via4<M>, Args4<T1, T2, T3, T4>> =
            <_ as FromMessage<S, Via4<M>>>::from_message(s, v, p, ack_id);
        match extracted {
            Ok(Args(t1, Args(t2, Args(t3, t4)))) => {
                let f = self.clone();
                let output = f(t1, t2, t3, t4);
                assert(cloned(*self, f) && call_ensures(f, (t1, t2, t3, t4), output));
                assert(called4(*self, t1, t2, t3, t4, output));
                Some(output)
            },
            Err(_) => None,
        }
    }
}

/// Async handler with 4 arguments
impl<S, M, F, Fut, T1, T2, T3, T4> MessageHandler<
    S,
    (private::Async, M, T1, T2, T3, T4),
> for F where
    F: FnOnce(T1, T2, T3, T4) -> Fut + Send + Sync + Clone + 'static,
    Fut: Future<Output = ()> + Send + 'static,
    T1: FromMessageParts<S> + Send,
    T2: FromMessageParts<S> + Send,
    T3: FromMessageParts<S> + Send,
    T4: FromMessage<S, M> + Send,
 {
    type Output = Fut;

    open spec fn ready(&self) -> bool {
        forall|f: F, t1: T1, t2: T2, t3: T3, t4: T4|
            cloned(*self, f) ==> #[trigger] call_requires(f, (t1, t2, t3, t4))
    }

    open spec fn handles(
        &self,
        s: S,
        v: Value,
        p: Vec<Vec<u8>>,
        ack_id: Option<i64>,
        output: Option<Fut>,
    ) -> bool {
        exists|extracted: Extracted<S, Via4<M>, Args4<T1, T2, T3, T4>>|
            {
                &&& #[trigger] <_ as FromMessage<S, Via4<M>>>::extracts(s, v, p, ack_id, extracted)
                &&& match extracted {
                    Ok(Args(t1, Args(t2, Args(t3, t4)))) => {
                        output matches Some(output) && called4(*self, t1, t2, t3, t4, output)
                    },
                    Err(_) => output is None,
                }
            }
    }

    fn call(&self, s: S, v: Value, p: Vec<Vec<u8>>, ack_id: Option<i64>) -> (output: Option<Fut>) {
        let extracted: Extracted<S, Via4<M>, Args4<T1, T2, T3, T4>> =
            <_ as FromMessage<S, Via4<M>>>::from_message(s, v, p, ack_id);
        match extracted {
            Ok(Args(t1, Args(t2, Args(t3, t4)))) => {
                let f = self.clone();
                let output = f(t1, t2, t3, t4);
                assert(cloned(*self, f) && call_ensures(f, (t1, t2, t3, t4), output));
                assert(called4(*self, t1, t2, t3, t4, output));
                Some(output)
            },
            Err(_) => None,
        }
    }
}

/// A copy of the handler, called with the arguments, may return `output`.
pub open spec fn called5<F, R, T1, T2, T3, T4, T5>(
    handler: F, t1: T1, t2: T2, t3: T3, t4: T4, t5: T5, output: R,
) -> bool where
    F: FnOnce(T1, T2, T3, T4, T5) -> R + Clone,
 {
    exists|f: F| cloned(handler, f) && #[trigger] call_ensures(f, (t1, t2, t3, t4, t5), output)
}

/// Sync handler with 5 arguments
impl<S, M, F, T1, T2, T3, T4, T5> MessageHandler<
    S,
    (private::Sync, M, T1, T2, T3, T4, T5),
> for F where
    F: FnOnce(T1, T2, T3, T4, T5) + Send + Sync + Clone + 'static,
    T1: FromMessageParts<S> + Send,
    T2: FromMessageParts<S> + Send,
    T3: FromMessageParts<S> + Send,
    T4: FromMessageParts<S> + Send,
    T5: FromMessage<S, M> + Send,
 {
    type Output = ();

    open spec fn ready(&self) -> bool {
        forall|f: F, t1: T1, t2: T2, t3: T3, t4: T4, t5: T5|
            cloned(*self, f) ==> #[trigger] call_requires(f, (t1, t2, t3, t4, t5))
    }

    open spec fn handles(
        &self,
        s: S,
        v: Value,
        p: Vec<Vec<u8>>,
        ack_id: Option<i64>,
        output: Option<()>,
    ) -> bool {
        exists|extracted: Extracted<S, Via5<M>, Args5<T1, T2, T3, T4, T5>>|
            {
                &&& #[trigger] <_ as FromMessage<S, Via5<M>>>::extracts(s, v, p, ack_id, extracted)
                &&& match extracted {
                    Ok(Args(t1, Args(t2, Args(t3, Args(t4, t5))))) => {
                        output matches Some(output) && called5(*self, t1, t2, t3, t4, t5, output)
                    },
                    Err(_) => output is None,
                }
            }
    }

    fn call(&self, s: S, v: Value, p: Vec<Vec<u8>>, ack_id: Option<i64>) -> (output: Option<()>) {
        let extracted: Extracted<S, Via5<M>, Args5<T1, T2, T3, T4, T5>> =
            <_ as FromMessage<S, Via5<M>>>::from_message(s, v, p, ack_id);
        match extracted {
            Ok(Args(t1, Args(t2, Args(t3, Args(t4, t5))))) => {
                let f = self.clone();
                let output = f(t1, t2, t3, t4, t5);
                assert(cloned(*self, f) && call_ensures(f, (t1, t2, t3, t4, t5), output));
                assert(called5(*self, t1, t2, t3, t4, t5, output));
                Some(output)
            },
            Err(_) => None,
        }
    }
}

/// Async handler with 5 arguments
impl<S, M, F, Fut, T1, T2, T3, T4, T5> MessageHandler<
    S,
    (private::Async, M, T1, T2, T3, T4, T5),
> for F where
    F: FnOnce(T1, T2, T3, T4, T5) -> Fut + Send + Sync + Clone + 'static,
    Fut: Future<Output = ()> + Send + 'static,
    T1: FromMessageParts<S> + Send,
    T2: FromMessageParts<S> + Send,
    T3: FromMessageParts<S> + Send,
    T4: FromMessageParts<S> + Send,
    T5: FromMessage<S, M> + Send,
 {
    type Output = Fut;

    open spec fn ready(&self) -> bool {
        forall|f: F, t1: T1, t2: T2, t3: T3, t4: T4, t5: T5|
            cloned(*self, f) ==> #[trigger] call_requires(f, (t1, t2, t3, t4, t5))
    }

    open spec fn handles(
        &self,
        s: S,
        v: Value,
        p: Vec<Vec<u8>>,
        ack_id: Option<i64>,
        output: Option<Fut>,
    ) -> bool {
        exists|extracted: Extracted<S, Via5<M>, Args5<T1, T2, T3, T4, T5>>|
            {
                &&& #[trigger] <_ as FromMessage<S, Via5<M>>>::extracts(s, v, p, ack_id, extracted)
                &&& match extracted {
                    Ok(Args(t1, Args(t2, Args(t3, Args(t4, t5))))) => {
                        output matches Some(output) && called5(*self, t1, t2, t3, t4, t5, output)
                    },
                    Err(_) => output is None,
                }
            }
    }

    fn call(&self, s: S, v: Value, p: Vec<Vec<u8>>, ack_id: Option<i64>) -> (output: Option<Fut>) {
        let extracted: Extracted<S, Via5<M>, Args5<T1, T2, T3, T4, T5>> =
            <_ as FromMessage<S, Via5<M>>>::from_message(s, v, p, ack_id);
        match extracted {
            Ok(Args(t1, Args(t2, Args(t3, Args(t4, t5))))) => {
                let f = self.clone();
                let output = f(t1, t2, t3, t4, t5);
                assert(cloned(*self, f) && call_ensures(f, (t1, t2, t3, t4, t5), output));
                assert(called5(*self, t1, t2, t3, t4, t5, output));
                Some(output)
            },
            Err(_) => None,
        }
    }
}

/// A copy of the handler, called with the arguments, may return `output`.
pub open spec fn called6<F, R, T1, T2, T3, T4, T5, T6>(
    handler: F, t1: T1, t2: T2, t3: T3, t4: T4, t5: T5, t6: T6, output: R,
) -> bool where
    F: FnOnce(T1, T2, T3, T4, T5, T6) -> R + Clone,
 {
    exists|f: F|
        cloned(handler, f) && #[trigger] call_ensures(f, (t1, t2, t3, t4, t5, t6), output)
}

/// Sync handler with 6 arguments
impl<S, M, F, T1, T2, T3, T4, T5, T6> MessageHandler<
    S,
    (private::Sync, M, T1, T2, T3, T4, T5, T6),
> for F where
    F: FnOnce(T1, T2, T3, T4, T5, T6) + Send + Sync + Clone + 'static,
    T1: FromMessageParts<S> + Send,
    T2: FromMessageParts<S> + Send,
    T3: FromMessageParts<S> + Send,
    T4: FromMessageParts<S> + Send,
    T5: FromMessageParts<S> + Send,
    T6: FromMessage<S, M> + Send,
 {
    type Output = ();

    open spec fn ready(&self) -> bool {
        forall|f: F, t1: T1, t2: T2, t3: T3, t4: T4, t5: T5, t6: T6|
            cloned(*self, f) ==> #[trigger] call_requires(f, (t1, t2, t3, t4, t5, t6))
    }

    open spec fn handles(
        &self,
        s: S,
        v: Value,
        p: Vec<Vec<u8>>,
        ack_id: Option<i64>,
        output: Option<()>,
    ) -> bool {
        exists|extracted: Extracted<S, Via6<M>, Args6<T1, T2, T3, T4, T5, T6>>|
            {
                &&& #[trigger] <_ as FromMessage<S, Via6<M>>>::extracts(s, v, p, ack_id, extracted)
                &&& match extracted {
                    Ok(Args(t1, Args(t2, Args(t3, Args(t4, Args(t5, t6)))))) => {
                        output matches Some(output) && called6(
                            *self, t1, t2, t3, t4, t5, t6, output,
                        )
                    },
                    Err(_) => output is None,
                }
            }
    }

    fn call(&self, s: S, v: Value, p: Vec<Vec<u8>>, ack_id: Option<i64>) -> (output: Option<()>) {
        let extracted: Extracted<S, Via6<M>, Args6<T1, T2, T3, T4, T5, T6>> =
            <_ as FromMessage<S, Via6<M>>>::from_message(s, v, p, ack_id);
        match extracted {
            Ok(Args(t1, Args(t2, Args(t3, Args(t4, Args(t5, t6)))))) => {
                let f = self.clone();
                let output = f(t1, t2, t3, t4, t5, t6);
                assert(cloned(*self, f) && call_ensures(f, (t1, t2, t3, t4, t5, t6), output));
                assert(called6(*self, t1, t2, t3, t4, t5, t6, output));
                Some(output)
            },
            Err(_) => None,
        }
    }
}

/// Async handler with 6 arguments
impl<S, M, F, Fut, T1, T2, T3, T4, T5, T6> MessageHandler<
    S,
    (private::Async, M, T1, T2, T3, T4, T5, T6),
> for F where
    F: FnOnce(T1, T2, T3, T4, T5, T6) -> Fut + Send + Sync + Clone + 'static,
    Fut: Future<Output = ()> + Send + 'static,
    T1: FromMessageParts<S> + Send,
    T2: FromMessageParts<S> + Send,
    T3: FromMessageParts<S> + Send,
    T4: FromMessageParts<S> + Send,
    T5: FromMessageParts<S> + Send,
    T6: FromMessage<S, M> + Send,
 {
    type Output = Fut;

    open spec fn ready(&self) -> bool {
        forall|f: F, t1: T1, t2: T2, t3: T3, t4: T4, t5: T5, t6: T6|
            cloned(*self, f) ==> #[trigger] call_requires(f, (t1, t2, t3, t4, t5, t6))
    }

    open spec fn handles(
        &self,
        s: S,
        v: Value,
        p: Vec<Vec<u8>>,
        ack_id: Option<i64>,
        output: Option<Fut>,
    ) -> bool {
        exists|extracted: Extracted<S, Via6<M>, Args6<T1, T2, T3, T4, T5, T6>>|
            {
                &&& #[trigger] <_ as FromMessage<S, Via6<M>>>::extracts(s, v, p, ack_id, extracted)
                &&& match extracted {
                    Ok(Args(t1, Args(t2, Args(t3, Args(t4, Args(t5, t6)))))) => {
                        output matches Some(output) && called6(
                            *self, t1, t2, t3, t4, t5, t6, output,
                        )
                    },
                    Err(_) => output is None,
                }
            }
    }

    fn call(&self, s: S, v: Value, p: Vec<Vec<u8>>, ack_id: Option<i64>) -> (output: Option<Fut>) {
        let extracted: Extracted<S, Via6<M>, Args6<T1, T2, T3, T4, T5, T6>> =
            <_ as FromMessage<S, Via6<M>>>::from_message(s, v, p, ack_id);
        match extracted {
            Ok(Args(t1, Args(t2, Args(t3, Args(t4, Args(t5, t6)))))) => {
                let f = self.clone();
                let output = f(t1, t2, t3, t4, t5, t6);
                assert(cloned(*self, f) && call_ensures(f, (t1, t2, t3, t4, t5, t6), output));
                assert(called6(*self, t1, t2, t3, t4, t5, t6, output));
                Some(output)
            },
            Err(_) => None,
        }
    }
}

/// A copy of the handler, called with the arguments, may return `output`.
pub open spec fn called7<F, R, T1, T2, T3, T4, T5, T6, T7>(
    handler: F, t1: T1, t2: T2, t3: T3, t4: T4, t5: T5, t6: T6, t7: T7, output: R,
) -> bool where
    F: FnOnce(T1, T2, T3, T4, T5, T6, T7) -> R + Clone,
 {
    exists|f: F|
        cloned(handler, f) && #[trigger] call_ensures(f, (t1, t2, t3, t4, t5, t6, t7), output)
}

/// Sync handler with 7 arguments
impl<S, M, F, T1, T2, T3, T4, T5, T6, T7> MessageHandler<
    S,
    (private::Sync, M, T1, T2, T3, T4, T5, T6, T7),
> for F where
    F: FnOnce(T1, T2, T3, T4, T5, T6, T7) + Send + Sync + Clone + 'static,
    T1: FromMessageParts<S> + Send,
    T2: FromMessageParts<S> + Send,
    T3: FromMessageParts<S> + Send,
    T4: FromMessageParts<S> + Send,
    T5: FromMessageParts<S> + Send,
    T6: FromMessageParts<S> + Send,
    T7: FromMessage<S, M> + Send,
 {
    type Output = ();

    open spec fn ready(&self) -> bool {
        forall|f: F, t1: T1, t2: T2, t3: T3, t4: T4, t5: T5, t6: T6, t7: T7|
            cloned(*self, f) ==> #[trigger] call_requires(f, (t1, t2, t3, t4, t5, t6, t7))
    }

    open spec fn handles(
        &self,
        s: S,
        v: Value,
        p: Vec<Vec<u8>>,
        ack_id: Option<i64>,
        output: Option<()>,
    ) -> bool {
        exists|extracted: Extracted<S, Via7<M>, Args7<T1, T2, T3, T4, T5, T6, T7>>|
            {
                &&& #[trigger] <_ as FromMessage<S, Via7<M>>>::extracts(s, v, p, ack_id, extracted)
                &&& match extracted {
                    Ok(Args(t1, Args(t2, Args(t3, Args(t4, Args(t5, Args(t6, t7))))))) => {
                        output matches Some(output) && called7(
                            *self, t1, t2, t3, t4, t5, t6, t7, output,
                        )
                    },
                    Err(_) => output is None,
                }
            }
    }

    fn call(&self, s: S, v: Value, p: Vec<Vec<u8>>, ack_id: Option<i64>) -> (output: Option<()>) {
        let extracted: Extracted<S, Via7<M>, Args7<T1, T2, T3, T4, T5, T6, T7>> =
            <_ as FromMessage<S, Via7<M>>>::from_message(s, v, p, ack_id);
        match extracted {
            Ok(Args(t1, Args(t2, Args(t3, Args(t4, Args(t5, Args(t6, t7))))))) => {
                let f = self.clone();
                let output = f(t1, t2, t3, t4, t5, t6, t7);
                assert(cloned(*self, f) && call_ensures(f, (t1, t2, t3, t4, t5, t6, t7), output));
                assert(called7(*self, t1, t2, t3, t4, t5, t6, t7, output));
                Some(output)
            },
            Err(_) => None,
        }
    }
}

/// Async handler with 7 arguments
impl<S, M, F, Fut, T1, T2, T3, T4, T5, T6, T7> MessageHandler<
    S,
    (private::Async, M, T1, T2, T3, T4, T5, T6, T7),
> for F where
    F: FnOnce(T1, T2, T3, T4, T5, T6, T7) -> Fut + Send + Sync + Clone + 'static,
    Fut: Future<Output = ()> + Send + 'static,
    T1: FromMessageParts<S> + Send,
    T2: FromMessageParts<S> + Send,
    T3: FromMessageParts<S> + Send,
    T4: FromMessageParts<S> + Send,
    T5: FromMessageParts<S> + Send,
    T6: FromMessageParts<S> + Send,
    T7: FromMessage<S, M> + Send,
 {
    type Output = Fut;

    open spec fn ready(&self) -> bool {
        forall|f: F, t1: T1, t2: T2, t3: T3, t4: T4, t5: T5, t6: T6, t7: T7|
            cloned(*self, f) ==> #[trigger] call_requires(f, (t1, t2, t3, t4, t5, t6, t7))
    }

    open spec fn handles(
        &self,
        s: S,
        v: Value,
        p: Vec<Vec<u8>>,
        ack_id: Option<i64>,
        output: Option<Fut>,
    ) -> bool {
        exists|extracted: Extracted<S, Via7<M>, Args7<T1, T2, T3, T4, T5, T6, T7>>|
            {
                &&& #[trigger] <_ as FromMessage<S, Via7<M>>>::extracts(s, v, p, ack_id, extracted)
                &&& match extracted {
                    Ok(Args(t1, Args(t2, Args(t3, Args(t4, Args(t5, Args(t6, t7))))))) => {
                        output matches Some(output) && called7(
                            *self, t1, t2, t3, t4, t5, t6, t7, output,
                        )
                    },
                    Err(_) => output is None,
                }
            }
    }

    fn call(&self, s: S, v: Value, p: Vec<Vec<u8>>, ack_id: Option<i64>) -> (output: Option<Fut>) {
        let extracted: Extracted<S, Via7<M>, Args7<T1, T2, T3, T4, T5, T6, T7>> =
            <_ as FromMessage<S, Via7<M>>>::from_message(s, v, p, ack_id);
        match extracted {
            Ok(Args(t1, Args(t2, Args(t3, Args(t4, Args(t5, Args(t6, t7))))))) => {
                let f = self.clone();
                let output = f(t1, t2, t3, t4, t5, t6, t7);
                assert(cloned(*self, f) && call_ensures(f, (t1, t2, t3, t4, t5, t6, t7), output));
                assert(called7(*self, t1, t2, t3, t4, t5, t6, t7, output));
                Some(output)
            },
            Err(_) => None,
        }
    }
}

/// A copy of the handler, called with the arguments, may return `output`.
pub open spec fn called8<F, R, T1, T2, T3, T4, T5, T6, T7, T8>(
    handler: F, t1: T1, t2: T2, t3: T3, t4: T4, t5: T5, t6: T6, t7: T7, t8: T8, output: R,
) -> bool where
    F: FnOnce(T1, T2, T3, T4, T5, T6, T7, T8) -> R + Clone,
 {
    exists|f: F|
        cloned(handler, f) && #[trigger] call_ensures(f, (t1, t2, t3, t4, t5, t6, t7, t8), output)
}

/// Sync handler with 8 arguments
impl<S, M, F, T1, T2, T3, T4, T5, T6, T7, T8> MessageHandler<
    S,
    (private::Sync, M, T1, T2, T3, T4, T5, T6, T7, T8),
> for F where
    F: FnOnce(T1, T2, T3, T4, T5, T6, T7, T8) + Send + Sync + Clone + 'static,
    T1: FromMessageParts<S> + Send,
    T2: FromMessageParts<S> + Send,
    T3: FromMessageParts<S> + Send,
    T4: FromMessageParts<S> + Send,
    T5: FromMessageParts<S> + Send,
    T6: FromMessageParts<S> + Send,
    T7: FromMessageParts<S> + Send,
    T8: FromMessage<S, M> + Send,
 {
    type Output = ();

    open spec fn ready(&self) -> bool {
        forall|f: F, t1: T1, t2: T2, t3: T3, t4: T4, t5: T5, t6: T6, t7: T7, t8: T8|
            cloned(*self, f) ==> #[trigger] call_requires(f, (t1, t2, t3, t4, t5, t6, t7, t8))
    }

    open spec fn handles(
        &self,
        s: S,
        v: Value,
        p: Vec<Vec<u8>>,
        ack_id: Option<i64>,
        output: Option<()>,
    ) -> bool {
        exists|extracted: Extracted<S, Via8<M>, Args8<T1, T2, T3, T4, T5, T6, T7, T8>>|
            {
                &&& #[trigger] <_ as FromMessage<S, Via8<M>>>::extracts(s, v, p, ack_id, extracted)
                &&& match extracted {
                    Ok(
                        Args(t1, Args(t2, Args(t3, Args(t4, Args(t5, Args(t6, Args(t7, t8))))))),
                    ) => {
                        output matches Some(output) && called8(
                            *self, t1, t2, t3, t4, t5, t6, t7, t8, output,
                        )
                    },
                    Err(_) => output is None,
                }
            }
    }

    fn call(&self, s: S, v: Value, p: Vec<Vec<u8>>, ack_id: Option<i64>) -> (output: Option<()>) {
        let extracted: Extracted<S, Via8<M>, Args8<T1, T2, T3, T4, T5, T6, T7, T8>> =
            <_ as FromMessage<S, Via8<M>>>::from_message(s, v, p, ack_id);
        match extracted {
            Ok(Args(t1, Args(t2, Args(t3, Args(t4, Args(t5, Args(t6, Args(t7, t8)))))))) => {
                let f = self.clone();
                let output = f(t1, t2, t3, t4, t5, t6, t7, t8);
                assert(cloned(*self, f) && call_ensures(
                    f, (t1, t2, t3, t4, t5, t6, t7, t8), output,
                ));
                assert(called8(*self, t1, t2, t3, t4, t5, t6, t7, t8, output));
                Some(output)
            },
            Err(_) => None,
        }
    }
}

/// Async handler with 8 arguments
impl<S, M, F, Fut, T1, T2, T3, T4, T5, T6, T7, T8> MessageHandler<
    S,
    (private::Async, M, T1, T2, T3, T4, T5, T6, T7, T8),
> for F where
    F: FnOnce(T1, T2, T3, T4, T5, T6, T7, T8) -> Fut + Send + Sync + Clone + 'static,
    Fut: Future<Output = ()> + Send + 'static,
    T1: FromMessageParts<S> + Send,
    T2: FromMessageParts<S> + Send,
    T3: FromMessageParts<S> + Send,
    T4: FromMessageParts<S> + Send,
    T5: FromMessageParts<S> + Send,
    T6: FromMessageParts<S> + Send,
    T7: FromMessageParts<S> + Send,
    T8: FromMessage<S, M> + Send,
 {
    type Output = Fut;

    open spec fn ready(&self) -> bool {
        forall|f: F, t1: T1, t2: T2, t3: T3, t4: T4, t5: T5, t6: T6, t7: T7, t8: T8|
            cloned(*self, f) ==> #[trigger] call_requires(f, (t1, t2, t3, t4, t5, t6, t7, t8))
    }

    open spec fn handles(
        &self,
        s: S,
        v: Value,
        p: Vec<Vec<u8>>,
        ack_id: Option<i64>,
        output: Option<Fut>,
    ) -> bool {
        exists|extracted: Extracted<S, Via8<M>, Args8<T1, T2, T3, T4, T5, T6, T7, T8>>|
            {
                &&& #[trigger] <_ as FromMessage<S, Via8<M>>>::extracts(s, v, p, ack_id, extracted)
                &&& match extracted {
                    Ok(
                        Args(t1, Args(t2, Args(t3, Args(t4, Args(t5, Args(t6, Args(t7, t8))))))),
                    ) => {
                        output matches Some(output) && called8(
                            *self, t1, t2, t3, t4, t5, t6, t7, t8, output,
                        )
                    },
                    Err(_) => output is None,
                }
            }
    }

    fn call(&self, s: S, v: Value, p: Vec<Vec<u8>>, ack_id: Option<i64>) -> (output: Option<Fut>) {
        let extracted: Extracted<S, Via8<M>, Args8<T1, T2, T3, T4, T5, T6, T7, T8>> =
            <_ as FromMessage<S, Via8<M>>>::from_message(s, v, p, ack_id);
        match extracted {
            Ok(Args(t1, Args(t2, Args(t3, Args(t4, Args(t5, Args(t6, Args(t7, t8)))))))) => {
                let f = self.clone();
                let output = f(t1, t2, t3, t4, t5, t6, t7, t8);
                assert(cloned(*self, f) && call_ensures(
                    f, (t1, t2, t3, t4, t5, t6, t7, t8), output,
                ));
                assert(called8(*self, t1, t2, t3, t4, t5, t6, t7, t8, output));
                Some(output)
            },
            Err(_) => None,
        }
    }
}

/// A copy of the handler, called with the arguments, may return `output`.
pub open spec fn called9<F, R, T1, T2, T3, T4, T5, T6, T7, T8, T9>(
    handler: F, t1: T1, t2: T2, t3: T3, t4: T4, t5: T5, t6: T6, t7: T7, t8: T8, t9: T9,
    output: R,
) -> bool where
    F: FnOnce(T1, T2, T3, T4, T5, T6, T7, T8, T9) -> R + Clone,
 {
    exists|f: F|
        cloned(handler, f) && #[trigger] call_ensures(
            f, (t1, t2, t3, t4, t5, t6, t7, t8, t9), output,
        )
}

/// Sync handler with 9 arguments
impl<S, M, F, T1, T2, T3, T4, T5, T6, T7, T8, T9> MessageHandler<
    S,
    (private::Sync, M, T1, T2, T3, T4, T5, T6, T7, T8, T9),
> for F where
    F: FnOnce(T1, T2, T3, T4, T5, T6, T7, T8, T9) + Send + Sync + Clone + 'static,
    T1: FromMessageParts<S> + Send,
    T2: FromMessageParts<S> + Send,
    T3: FromMessageParts<S> + Send,
    T4: FromMessageParts<S> + Send,
    T5: FromMessageParts<S> + Send,
    T6: FromMessageParts<S> + Send,
    T7: FromMessageParts<S> + Send,
    T8: FromMessageParts<S> + Send,
    T9: FromMessage<S, M> + Send,
 {
    type Output = ();

    open spec fn ready(&self) -> bool {
        forall|f: F, t1: T1, t2: T2, t3: T3, t4: T4, t5: T5, t6: T6, t7: T7, t8: T8, t9: T9|
            cloned(*self, f) ==> #[trigger] call_requires(f, (t1, t2, t3, t4, t5, t6, t7, t8, t9))
    }

    open spec fn handles(
        &self,
        s: S,
        v: Value,
        p: Vec<Vec<u8>>,
        ack_id: Option<i64>,
        output: Option<()>,
    ) -> bool {
        exists|extracted: Extracted<S, Via9<M>, Args9<T1, T2, T3, T4, T5, T6, T7, T8, T9>>|
            {
                &&& #[trigger] <_ as FromMessage<S, Via9<M>>>::extracts(s, v, p, ack_id, extracted)
                &&& match extracted {
                    Ok(
                        Args(t1, Args(t2, Args(t3, Args(t4, Args(t5, Args(t6, Args(t7, Args(t8,
                        t9)))))))),
                    ) => {
                        output matches Some(output) && called9(
                            *self, t1, t2, t3, t4, t5, t6, t7, t8, t9, output,
                        )
                    },
                    Err(_) => output is None,
                }
            }
    }

    fn call(&self, s: S, v: Value, p: Vec<Vec<u8>>, ack_id: Option<i64>) -> (output: Option<()>) {
        let extracted: Extracted<S, Via9<M>, Args9<T1, T2, T3, T4, T5, T6, T7, T8, T9>> =
            <_ as FromMessage<S, Via9<M>>>::from_message(s, v, p, ack_id);
        match extracted {
            Ok(
                Args(t1, Args(t2, Args(t3, Args(t4, Args(t5, Args(t6, Args(t7, Args(t8,
                t9)))))))),
            ) => {
                let f = self.clone();
                let output = f(t1, t2, t3, t4, t5, t6, t7, t8, t9);
                assert(cloned(*self, f) && call_ensures(
                    f, (t1, t2, t3, t4, t5, t6, t7, t8, t9), output,
                ));
                assert(called9(*self, t1, t2, t3, t4, t5, t6, t7, t8, t9, output));
                Some(output)
            },
            Err(_) => None,
        }
    }
}

/// Async handler with 9 arguments
impl<S, M, F, Fut, T1, T2, T3, T4, T5, T6, T7, T8, T9> MessageHandler<
    S,
    (private::Async, M, T1, T2, T3, T4, T5, T6, T7, T8, T9),
> for F where
    F: FnOnce(T1, T2, T3, T4, T5, T6, T7, T8, T9) -> Fut + Send + Sync + Clone + 'static,
    Fut: Future<Output = ()> + Send + 'static,
    T1: FromMessageParts<S> + Send,
    T2: FromMessageParts<S> + Send,
    T3: FromMessageParts<S> + Send,
    T4: FromMessageParts<S> + Send,
    T5: FromMessageParts<S> + Send,
    T6: FromMessageParts<S> + Send,
    T7: FromMessageParts<S> + Send,
    T8: FromMessageParts<S> + Send,
    T9: FromMessage<S, M> + Send,
 {
    type Output = Fut;

    open spec fn ready(&self) -> bool {
        forall|f: F, t1: T1, t2: T2, t3: T3, t4: T4, t5: T5, t6: T6, t7: T7, t8: T8, t9: T9|
            cloned(*self, f) ==> #[trigger] call_requires(f, (t1, t2, t3, t4, t5, t6, t7, t8, t9))
    }

    open spec fn handles(
        &self,
        s: S,
        v: Value,
        p: Vec<Vec<u8>>,
        ack_id: Option<i64>,
        output: Option<Fut>,
    ) -> bool {
        exists|extracted: Extracted<S, Via9<M>, Args9<T1, T2, T3, T4, T5, T6, T7, T8, T9>>|
            {
                &&& #[trigger] <_ as FromMessage<S, Via9<M>>>::extracts(s, v, p, ack_id, extracted)
                &&& match extracted {
                    Ok(
                        Args(t1, Args(t2, Args(t3, Args(t4, Args(t5, Args(t6, Args(t7, Args(t8,
                        t9)))))))),
                    ) => {
                        output matches Some(output) && called9(
                            *self, t1, t2, t3, t4, t5, t6, t7, t8, t9, output,
                        )
                    },
                    Err(_) => output is None,
                }
            }
    }

    fn call(&self, s: S, v: Value, p: Vec<Vec<u8>>, ack_id: Option<i64>) -> (output: Option<Fut>) {
        let extracted: Extracted<S, Via9<M>, Args9<T1, T2, T3, T4, T5, T6, T7, T8, T9>> =
            <_ as FromMessage<S, Via9<M>>>::from_message(s, v, p, ack_id);
        match extracted {
            Ok(
                Args(t1, Args(t2, Args(t3, Args(t4, Args(t5, Args(t6, Args(t7, Args(t8,
                t9)))))))),
            ) => {
                let f = self.clone();
                let output = f(t1, t2, t3, t4, t5, t6, t7, t8, t9);
                assert(cloned(*self, f) && call_ensures(
                    f, (t1, t2, t3, t4, t5, t6, t7, t8, t9), output,
                ));
                assert(called9(*self, t1, t2, t3, t4, t5, t6, t7, t8, t9, output));
                Some(output)
            },
            Err(_) => None,
        }
    }
}

/// A copy of the handler, called with the arguments, may return `output`.
pub open spec fn called10<F, R, T1, T2, T3, T4, T5, T6, T7, T8, T9, T10>(
    handler: F, t1: T1, t2: T2, t3: T3, t4: T4, t5: T5, t6: T6, t7: T7, t8: T8, t9: T9,
    t10: T10, output: R,
) -> bool where
    F: FnOnce(T1, T2, T3, T4, T5, T6, T7, T8, T9, T10) -> R + Clone,
 {
    exists|f: F|
        cloned(handler, f) && #[trigger] call_ensures(
            f, (t1, t2, t3, t4, t5, t6, t7, t8, t9, t10), output,
        )
}

/// Sync handler with 10 arguments
impl<S, M, F, T1, T2, T3, T4, T5, T6, T7, T8, T9, T10> MessageHandler<
    S,
    (private::Sync, M, T1, T2, T3, T4, T5, T6, T7, T8, T9, T10),
> for F where
    F: FnOnce(T1, T2, T3, T4, T5, T6, T7, T8, T9, T10) + Send + Sync + Clone + 'static,
    T1: FromMessageParts<S> + Send,
    T2: FromMessageParts<S> + Send,
    T3: FromMessageParts<S> + Send,
    T4: FromMessageParts<S> + Send,
    T5: FromMessageParts<S> + Send,
    T6: FromMessageParts<S> + Send,
    T7: FromMessageParts<S> + Send,
    T8: FromMessageParts<S> + Send,
    T9: FromMessageParts<S> + Send,
    T10: FromMessage<S, M> + Send,
 {
    type Output = ();

    open spec fn ready(&self) -> bool {
        forall|
            f: F, t1: T1, t2: T2, t3: T3, t4: T4, t5: T5, t6: T6, t7: T7, t8: T8, t9: T9,
            t10: T10,
        |
            cloned(*self, f) ==> #[trigger] call_requires(
                f, (t1, t2, t3, t4, t5, t6, t7, t8, t9, t10),
            )
    }

    open spec fn handles(
        &self,
        s: S,
        v: Value,
        p: Vec<Vec<u8>>,
        ack_id: Option<i64>,
        output: Option<()>,
    ) -> bool {
        exists|extracted: Extracted<S, Via10<M>, Args10<T1, T2, T3, T4, T5, T6, T7, T8, T9, T10>>|
            {
                &&& #[trigger] <_ as FromMessage<S, Via10<M>>>::extracts(s, v, p, ack_id, extracted)
                &&& match extracted {
                    Ok(
                        Args(t1, Args(t2, Args(t3, Args(t4, Args(t5, Args(t6, Args(t7, Args(t8,
                        Args(t9, t10))))))))),
                    ) => {
                        output matches Some(output) && called10(
                            *self, t1, t2, t3, t4, t5, t6, t7, t8, t9, t10, output,
                        )
                    },
                    Err(_) => output is None,
                }
            }
    }

    fn call(&self, s: S, v: Value, p: Vec<Vec<u8>>, ack_id: Option<i64>) -> (output: Option<()>) {
        let extracted: Extracted<S, Via10<M>, Args10<T1, T2, T3, T4, T5, T6, T7, T8, T9, T10>> =
            <_ as FromMessage<S, Via10<M>>>::from_message(s, v, p, ack_id);
        match extracted {
            Ok(
                Args(t1, Args(t2, Args(t3, Args(t4, Args(t5, Args(t6, Args(t7, Args(t8, Args(t9,
                t10))))))))),
            ) => {
                let f = self.clone();
                let output = f(t1, t2, t3, t4, t5, t6, t7, t8, t9, t10);
                assert(cloned(*self, f) && call_ensures(
                    f, (t1, t2, t3, t4, t5, t6, t7, t8, t9, t10), output,
                ));
                assert(called10(*self, t1, t2, t3, t4, t5, t6, t7, t8, t9, t10, output));
                Some(output)
            },
            Err(_) => None,
        }
    }
}

/// Async handler with 10 arguments
impl<S, M, F, Fut, T1, T2, T3, T4, T5, T6, T7, T8, T9, T10> MessageHandler<
    S,
    (private::Async, M, T1, T2, T3, T4, T5, T6, T7, T8, T9, T10),
> for F where
    F: FnOnce(T1, T2, T3, T4, T5, T6, T7, T8, T9, T10) -> Fut + Send + Sync + Clone + 'static,
    Fut: Future<Output = ()> + Send + 'static,
    T1: FromMessageParts<S> + Send,
    T2: FromMessageParts<S> + Send,
    T3: FromMessageParts<S> + Send,
    T4: FromMessageParts<S> + Send,
    T5: FromMessageParts<S> + Send,
    T6: FromMessageParts<S> + Send,
    T7: FromMessageParts<S> + Send,
    T8: FromMessageParts<S> + Send,
    T9: FromMessageParts<S> + Send,
    T10: FromMessage<S, M> + Send,
 {
    type Output = Fut;

    open spec fn ready(&self) -> bool {
        forall|
            f: F, t1: T1, t2: T2, t3: T3, t4: T4, t5: T5, t6: T6, t7: T7, t8: T8, t9: T9,
            t10: T10,
        |
            cloned(*self, f) ==> #[trigger] call_requires(
                f, (t1, t2, t3, t4, t5, t6, t7, t8, t9, t10),
            )
    }

    open spec fn handles(
        &self,
        s: S,
        v: Value,
        p: Vec<Vec<u8>>,
        ack_id: Option<i64>,
        output: Option<Fut>,
    ) -> bool {
        exists|extracted: Extracted<S, Via10<M>, Args10<T1, T2, T3, T4, T5, T6, T7, T8, T9, T10>>|
            {
                &&& #[trigger] <_ as FromMessage<S, Via10<M>>>::extracts(s, v, p, ack_id, extracted)
                &&& match extracted {
                    Ok(
                        Args(t1, Args(t2, Args(t3, Args(t4, Args(t5, Args(t6, Args(t7, Args(t8,
                        Args(t9, t10))))))))),
                    ) => {
                        output matches Some(output) && called10(
                            *self, t1, t2, t3, t4, t5, t6, t7, t8, t9, t10, output,
                        )
                    },
                    Err(_) => output is None,
                }
            }
    }

    fn call(&self, s: S, v: Value, p: Vec<Vec<u8>>, ack_id: Option<i64>) -> (output: Option<Fut>) {
        let extracted: Extracted<S, Via10<M>, Args10<T1, T2, T3, T4, T5, T6, T7, T8, T9, T10>> =
            <_ as FromMessage<S, Via10<M>>>::from_message(s, v, p, ack_id);
        match extracted {
            Ok(
                Args(t1, Args(t2, Args(t3, Args(t4, Args(t5, Args(t6, Args(t7, Args(t8, Args(t9,
                t10))))))))),
            ) => {
                let f = self.clone();
                let output = f(t1, t2, t3, t4, t5, t6, t7, t8, t9, t10);
                assert(cloned(*self, f) && call_ensures(
                    f, (t1, t2, t3, t4, t5, t6, t7, t8, t9, t10), output,
                ));
                assert(called10(*self, t1, t2, t3, t4, t5, t6, t7, t8, t9, t10, output));
                Some(output)
            },
            Err(_) => None,
        }
    }
}

/// A copy of the handler, called with the arguments, may return `output`.
pub open spec fn called11<F, R, T1, T2, T3, T4, T5, T6, T7, T8, T9, T10, T11>(
    handler: F, t1: T1, t2: T2, t3: T3, t4: T4, t5: T5, t6: T6, t7: T7, t8: T8, t9: T9,
    t10: T10, t11: T11, output: R,
) -> bool where
    F: FnOnce(T1, T2, T3, T4, T5, T6, T7, T8, T9, T10, T11) -> R + Clone,
 {
    exists|f: F|
        cloned(handler, f) && #[trigger] call_ensures(
            f, (t1, t2, t3, t4, t5, t6, t7, t8, t9, t10, t11), output,
        )
}

/// Sync handler with 11 arguments
impl<S, M, F, T1, T2, T3, T4, T5, T6, T7, T8, T9, T10, T11> MessageHandler<
    S,
    (private::Sync, M, T1, T2, T3, T4, T5, T6, T7, T8, T9, T10, T11),
> for F where
    F: FnOnce(T1, T2, T3, T4, T5, T6, T7, T8, T9, T10, T11) + Send + Sync + Clone + 'static,
    T1: FromMessageParts<S> + Send,
    T2: FromMessageParts<S> + Send,
    T3: FromMessageParts<S> + Send,
    T4: FromMessageParts<S> + Send,
    T5: FromMessageParts<S> + Send,
    T6: FromMessageParts<S> + Send,
    T7: FromMessageParts<S> + Send,
    T8: FromMessageParts<S> + Send,
    T9: FromMessageParts<S> + Send,
    T10: FromMessageParts<S> + Send,
    T11: FromMessage<S, M> + Send,
 {
    type Output = ();

    open spec fn ready(&self) -> bool {
        forall|
            f: F, t1: T1, t2: T2, t3: T3, t4: T4, t5: T5, t6: T6, t7: T7, t8: T8, t9: T9,
            t10: T10, t11: T11,
        |
            cloned(*self, f) ==> #[trigger] call_requires(
                f, (t1, t2, t3, t4, t5, t6, t7, t8, t9, t10, t11),
            )
    }

    open spec fn handles(
        &self,
        s: S,
        v: Value,
        p: Vec<Vec<u8>>,
        ack_id: Option<i64>,
        output: Option<()>,
    ) -> bool {
        exists|extracted: Extracted<
            S, Via11<M>, Args11<T1, T2, T3, T4, T5, T6, T7, T8, T9, T10, T11>,
        >|
            {
                &&& #[trigger] <_ as FromMessage<S, Via11<M>>>::extracts(s, v, p, ack_id, extracted)
                &&& match extracted {
                    Ok(
                        Args(t1, Args(t2, Args(t3, Args(t4, Args(t5, Args(t6, Args(t7, Args(t8,
                        Args(t9, Args(t10, t11)))))))))),
                    ) => {
                        output matches Some(output) && called11(
                            *self, t1, t2, t3, t4, t5, t6, t7, t8, t9, t10, t11, output,
                        )
                    },
                    Err(_) => output is None,
                }
            }
    }

    fn call(&self, s: S, v: Value, p: Vec<Vec<u8>>, ack_id: Option<i64>) -> (output: Option<()>) {
        let extracted: Extracted<
            S, Via11<M>, Args11<T1, T2, T3, T4, T5, T6, T7, T8, T9, T10, T11>,
        > =
            <_ as FromMessage<S, Via11<M>>>::from_message(s, v, p, ack_id);
        match extracted {
            Ok(
                Args(t1, Args(t2, Args(t3, Args(t4, Args(t5, Args(t6, Args(t7, Args(t8, Args(t9,
                Args(t10, t11)))))))))),
            ) => {
                let f = self.clone();
                let output = f(t1, t2, t3, t4, t5, t6, t7, t8, t9, t10, t11);
                assert(cloned(*self, f) && call_ensures(
                    f, (t1, t2, t3, t4, t5, t6, t7, t8, t9, t10, t11), output,
                ));
                assert(called11(*self, t1, t2, t3, t4, t5, t6, t7, t8, t9, t10, t11, output));
                Some(output)
            },
            Err(_) => None,
        }
    }
}

/// Async handler with 11 arguments
impl<S, M, F, Fut, T1, T2, T3, T4, T5, T6, T7, T8, T9, T10, T11> MessageHandler<
    S,
    (private::Async, M, T1, T2, T3, T4, T5, T6, T7, T8, T9, T10, T11),
> for F where
    F: FnOnce(
        T1, T2, T3, T4, T5, T6, T7, T8, T9, T10, T11,
    ) -> Fut + Send + Sync + Clone + 'static,
    Fut: Future<Output = ()> + Send + 'static,
    T1: FromMessageParts<S> + Send,
    T2: FromMessageParts<S> + Send,
    T3: FromMessageParts<S> + Send,
    T4: FromMessageParts<S> + Send,
    T5: FromMessageParts<S> + Send,
    T6: FromMessageParts<S> + Send,
    T7: FromMessageParts<S> + Send,
    T8: FromMessageParts<S> + Send,
    T9: FromMessageParts<S> + Send,
    T10: FromMessageParts<S> + Send,
    T11: FromMessage<S, M> + Send,
 {
    type Output = Fut;

    open spec fn ready(&self) -> bool {
        forall|
            f: F, t1: T1, t2: T2, t3: T3, t4: T4, t5: T5, t6: T6, t7: T7, t8: T8, t9: T9,
            t10: T10, t11: T11,
        |
            cloned(*self, f) ==> #[trigger] call_requires(
                f, (t1, t2, t3, t4, t5, t6, t7, t8, t9, t10, t11),
            )
    }

    open spec fn handles(
        &self,
        s: S,
        v: Value,
        p: Vec<Vec<u8>>,
        ack_id: Option<i64>,
        output: Option<Fut>,
    ) -> bool {
        exists|extracted: Extracted<
            S, Via11<M>, Args11<T1, T2, T3, T4, T5, T6, T7, T8, T9, T10, T11>,
        >|
            {
                &&& #[trigger] <_ as FromMessage<S, Via11<M>>>::extracts(s, v, p, ack_id, extracted)
                &&& match extracted {
                    Ok(
                        Args(t1, Args(t2, Args(t3, Args(t4, Args(t5, Args(t6, Args(t7, Args(t8,
                        Args(t9, Args(t10, t11)))))))))),
                    ) => {
                        output matches Some(output) && called11(
                            *self, t1, t2, t3, t4, t5, t6, t7, t8, t9, t10, t11, output,
                        )
                    },
                    Err(_) => output is None,
                }
            }
    }

    fn call(&self, s: S, v: Value, p: Vec<Vec<u8>>, ack_id: Option<i64>) -> (output: Option<Fut>) {
        let extracted: Extracted<
            S, Via11<M>, Args11<T1, T2, T3, T4, T5, T6, T7, T8, T9, T10, T11>,
        > =
            <_ as FromMessage<S, Via11<M>>>::from_message(s, v, p, ack_id);
        match extracted {
            Ok(
                Args(t1, Args(t2, Args(t3, Args(t4, Args(t5, Args(t6, Args(t7, Args(t8, Args(t9,
                Args(t10, t11)))))))))),
            ) => {
                let f = self.clone();
                let output = f(t1, t2, t3, t4, t5, t6, t7, t8, t9, t10, t11);
                assert(cloned(*self, f) && call_ensures(
                    f, (t1, t2, t3, t4, t5, t6, t7, t8, t9, t10, t11), output,
                ));
                assert(called11(*self, t1, t2, t3, t4, t5, t6, t7, t8, t9, t10, t11, output));
                Some(output)
            },
            Err(_) => None,
        }
    }
}

/// A copy of the handler, called with the arguments, may return `output`.
pub open spec fn called12<F, R, T1, T2, T3, T4, T5, T6, T7, T8, T9, T10, T11, T12>(
    handler: F, t1: T1, t2: T2, t3: T3, t4: T4, t5: T5, t6: T6, t7: T7, t8: T8, t9: T9,
    t10: T10, t11: T11, t12: T12, output: R,
) -> bool where
    F: FnOnce(T1, T2, T3, T4, T5, T6, T7, T8, T9, T10, T11, T12) -> R + Clone,
 {
    exists|f: F|
        cloned(handler, f) && #[trigger] call_ensures(
            f, (t1, t2, t3, t4, t5, t6, t7, t8, t9, t10, t11, t12), output,
        )
}

/// Sync handler with 12 arguments
impl<S, M, F, T1, T2, T3, T4, T5, T6, T7, T8, T9, T10, T11, T12> MessageHandler<
    S,
    (private::Sync, M, T1, T2, T3, T4, T5, T6, T7, T8, T9, T10, T11, T12),
> for F where
    F: FnOnce(T1, T2, T3, T4, T5, T6, T7, T8, T9, T10, T11, T12) + Send + Sync + Clone + 'static,
    T1: FromMessageParts<S> + Send,
    T2: FromMessageParts<S> + Send,
    T3: FromMessageParts<S> + Send,
    T4: FromMessageParts<S> + Send,
    T5: FromMessageParts<S> + Send,
    T6: FromMessageParts<S> + Send,
    T7: FromMessageParts<S> + Send,
    T8: FromMessageParts<S> + Send,
    T9: FromMessageParts<S> + Send,
    T10: FromMessageParts<S> + Send,
    T11: FromMessageParts<S> + Send,
    T12: FromMessage<S, M> + Send,
 {
    type Output = ();

    open spec fn ready(&self) -> bool {
        forall|
            f: F, t1: T1, t2: T2, t3: T3, t4: T4, t5: T5, t6: T6, t7: T7, t8: T8, t9: T9,
            t10: T10, t11: T11, t12: T12,
        |
            cloned(*self, f) ==> #[trigger] call_requires(
                f, (t1, t2, t3, t4, t5, t6, t7, t8, t9, t10, t11, t12),
            )
    }

    open spec fn handles(
        &self,
        s: S,
        v: Value,
        p: Vec<Vec<u8>>,
        ack_id: Option<i64>,
        output: Option<()>,
    ) -> bool {
        exists|extracted: Extracted<
            S, Via12<M>, Args12<T1, T2, T3, T4, T5, T6, T7, T8, T9, T10, T11, T12>,
        >|
            {
                &&& #[trigger] <_ as FromMessage<S, Via12<M>>>::extracts(s, v, p, ack_id, extracted)
                &&& match extracted {
                    Ok(
                        Args(t1, Args(t2, Args(t3, Args(t4, Args(t5, Args(t6, Args(t7, Args(t8,
                        Args(t9, Args(t10, Args(t11, t12))))))))))),
                    ) => {
                        output matches Some(output) && called12(
                            *self, t1, t2, t3, t4, t5, t6, t7, t8, t9, t10, t11, t12, output,
                        )
                    },
                    Err(_) => output is None,
                }
            }
    }

    fn call(&self, s: S, v: Value, p: Vec<Vec<u8>>, ack_id: Option<i64>) -> (output: Option<()>) {
        let extracted: Extracted<
            S, Via12<M>, Args12<T1, T2, T3, T4, T5, T6, T7, T8, T9, T10, T11, T12>,
        > =
            <_ as FromMessage<S, Via12<M>>>::from_message(s, v, p, ack_id);
        match extracted {
            Ok(
                Args(t1, Args(t2, Args(t3, Args(t4, Args(t5, Args(t6, Args(t7, Args(t8, Args(t9,
                Args(t10, Args(t11, t12))))))))))),
            ) => {
                let f = self.clone();
                let output = f(t1, t2, t3, t4, t5, t6, t7, t8, t9, t10, t11, t12);
                assert(cloned(*self, f) && call_ensures(
                    f, (t1, t2, t3, t4, t5, t6, t7, t8, t9, t10, t11, t12), output,
                ));
                assert(called12(
                    *self, t1, t2, t3, t4, t5, t6, t7, t8, t9, t10, t11, t12, output,
                ));
                Some(output)
            },
            Err(_) => None,
        }
    }
}

/// Async handler with 12 arguments
impl<S, M, F, Fut, T1, T2, T3, T4, T5, T6, T7, T8, T9, T10, T11, T12> MessageHandler<
    S,
    (private::Async, M, T1, T2, T3, T4, T5, T6, T7, T8, T9, T10, T11, T12),
> for F where
    F: FnOnce(
        T1, T2, T3, T4, T5, T6, T7, T8, T9, T10, T11, T12,
    ) -> Fut + Send + Sync + Clone + 'static,
    Fut: Future<Output = ()> + Send + 'static,
    T1: FromMessageParts<S> + Send,
    T2: FromMessageParts<S> + Send,
    T3: FromMessageParts<S> + Send,
    T4: FromMessageParts<S> + Send,
    T5: FromMessageParts<S> + Send,
    T6: FromMessageParts<S> + Send,
    T7: FromMessageParts<S> + Send,
    T8: FromMessageParts<S> + Send,
    T9: FromMessageParts<S> + Send,
    T10: FromMessageParts<S> + Send,
    T11: FromMessageParts<S> + Send,
    T12: FromMessage<S, M> + Send,
 {
    type Output = Fut;

    open spec fn ready(&self) -> bool {
        forall|
            f: F, t1: T1, t2: T2, t3: T3, t4: T4, t5: T5, t6: T6, t7: T7, t8: T8, t9: T9,
            t10: T10, t11: T11, t12: T12,
        |
            cloned(*self, f) ==> #[trigger] call_requires(
                f, (t1, t2, t3, t4, t5, t6, t7, t8, t9, t10, t11, t12),
            )
    }

    open spec fn handles(
        &self,
        s: S,
        v: Value,
        p: Vec<Vec<u8>>,
        ack_id: Option<i64>,
        output: Option<Fut>,
    ) -> bool {
        exists|extracted: Extracted<
            S, Via12<M>, Args12<T1, T2, T3, T4, T5, T6, T7, T8, T9, T10, T11, T12>,
        >|
            {
                &&& #[trigger] <_ as FromMessage<S, Via12<M>>>::extracts(s, v, p, ack_id, extracted)
                &&& match extracted {
                    Ok(
                        Args(t1, Args(t2, Args(t3, Args(t4, Args(t5, Args(t6, Args(t7, Args(t8,
                        Args(t9, Args(t10, Args(t11, t12))))))))))),
                    ) => {
                        output matches Some(output) && called12(
                            *self, t1, t2, t3, t4, t5, t6, t7, t8, t9, t10, t11, t12, output,
                        )
                    },
                    Err(_) => output is None,
                }
            }
    }

    fn call(&self, s: S, v: Value, p: Vec<Vec<u8>>, ack_id: Option<i64>) -> (output: Option<Fut>) {
        let extracted: Extracted<
            S, Via12<M>, Args12<T1, T2, T3, T4, T5, T6, T7, T8, T9, T10, T11, T12>,
        > =
            <_ as FromMessage<S, Via12<M>>>::from_message(s, v, p, ack_id);
        match extracted {
            Ok(
                Args(t1, Args(t2, Args(t3, Args(t4, Args(t5, Args(t6, Args(t7, Args(t8, Args(t9,
                Args(t10, Args(t11, t12))))))))))),
            ) => {
                let f = self.clone();
                let output = f(t1, t2, t3, t4, t5, t6, t7, t8, t9, t10, t11, t12);
                assert(cloned(*self, f) && call_ensures(
                    f, (t1, t2, t3, t4, t5, t6, t7, t8, t9, t10, t11, t12), output,
                ));
                assert(called12(
                    *self, t1, t2, t3, t4, t5, t6, t7, t8, t9, t10, t11, t12, output,
                ));
                Some(output)
            },
            Err(_) => None,
        }
    }
}

/// A copy of the handler, called with the arguments, may return `output`.
pub open spec fn called13<F, R, T1, T2, T3, T4, T5, T6, T7, T8, T9, T10, T11, T12, T13>(
    handler: F, t1: T1, t2: T2, t3: T3, t4: T4, t5: T5, t6: T6, t7: T7, t8: T8, t9: T9,
    t10: T10, t11: T11, t12: T12, t13: T13, output: R,
) -> bool where
    F: FnOnce(T1, T2, T3, T4, T5, T6, T7, T8, T9, T10, T11, T12, T13) -> R + Clone,
 {
    exists|f: F|
        cloned(handler, f) && #[trigger] call_ensures(
            f, (t1, t2, t3, t4, t5, t6, t7, t8, t9, t10, t11, t12, t13), output,
        )
}

/// Sync handler with 13 arguments
impl<S, M, F, T1, T2, T3, T4, T5, T6, T7, T8, T9, T10, T11, T12, T13> MessageHandler<
    S,
    (private::Sync, M, T1, T2, T3, T4, T5, T6, T7, T8, T9, T10, T11, T12, T13),
> for F where
    F: FnOnce(
        T1, T2, T3, T4, T5, T6, T7, T8, T9, T10, T11, T12, T13,
    ) + Send + Sync + Clone + 'static,
    T1: FromMessageParts<S> + Send,
    T2: FromMessageParts<S> + Send,
    T3: FromMessageParts<S> + Send,
    T4: FromMessageParts<S> + Send,
    T5: FromMessageParts<S> + Send,
    T6: FromMessageParts<S> + Send,
    T7: FromMessageParts<S> + Send,
    T8: FromMessageParts<S> + Send,
    T9: FromMessageParts<S> + Send,
    T10: FromMessageParts<S> + Send,
    T11: FromMessageParts<S> + Send,
    T12: FromMessageParts<S> + Send,
    T13: FromMessage<S, M> + Send,
 {
    type Output = ();

    open spec fn ready(&self) -> bool {
        forall|
            f: F, t1: T1, t2: T2, t3: T3, t4: T4, t5: T5, t6: T6, t7: T7, t8: T8, t9: T9,
            t10: T10, t11: T11, t12: T12, t13: T13,
        |
            cloned(*self, f) ==> #[trigger] call_requires(
                f, (t1, t2, t3, t4, t5, t6, t7, t8, t9, t10, t11, t12, t13),
            )
    }

    open spec fn handles(
        &self,
        s: S,
        v: Value,
        p: Vec<Vec<u8>>,
        ack_id: Option<i64>,
        output: Option<()>,
    ) -> bool {
        exists|extracted: Extracted<
            S, Via13<M>, Args13<T1, T2, T3, T4, T5, T6, T7, T8, T9, T10, T11, T12, T13>,
        >|
            {
                &&& #[trigger] <_ as FromMessage<S, Via13<M>>>::extracts(s, v, p, ack_id, extracted)
                &&& match extracted {
                    Ok(
                        Args(t1, Args(t2, Args(t3, Args(t4, Args(t5, Args(t6, Args(t7, Args(t8,
                        Args(t9, Args(t10, Args(t11, Args(t12, t13)))))))))))),
                    ) => {
                        output matches Some(output) && called13(
                            *self, t1, t2, t3, t4, t5, t6, t7, t8, t9, t10, t11, t12, t13,
                            output,
                        )
                    },
                    Err(_) => output is None,
                }
            }
    }

    fn call(&self, s: S, v: Value, p: Vec<Vec<u8>>, ack_id: Option<i64>) -> (output: Option<()>) {
        let extracted: Extracted<
            S, Via13<M>, Args13<T1, T2, T3, T4, T5, T6, T7, T8, T9, T10, T11, T12, T13>,
        > =
            <_ as FromMessage<S, Via13<M>>>::from_message(s, v, p, ack_id);
        match extracted {
            Ok(
                Args(t1, Args(t2, Args(t3, Args(t4, Args(t5, Args(t6, Args(t7, Args(t8, Args(t9,
                Args(t10, Args(t11, Args(t12, t13)))))))))))),
            ) => {
                let f = self.clone();
                let output = f(t1, t2, t3, t4, t5, t6, t7, t8, t9, t10, t11, t12, t13);
                assert(cloned(*self, f) && call_ensures(
                    f, (t1, t2, t3, t4, t5, t6, t7, t8, t9, t10, t11, t12, t13), output,
                ));
                assert(called13(
                    *self, t1, t2, t3, t4, t5, t6, t7, t8, t9, t10, t11, t12, t13, output,
                ));
                Some(output)
            },
            Err(_) => None,
        }
    }
}

/// Async handler with 13 arguments
impl<S, M, F, Fut, T1, T2, T3, T4, T5, T6, T7, T8, T9, T10, T11, T12, T13> MessageHandler<
    S,
    (private::Async, M, T1, T2, T3, T4, T5, T6, T7, T8, T9, T10, T11, T12, T13),
> for F where
    F: FnOnce(
        T1, T2, T3, T4, T5, T6, T7, T8, T9, T10, T11, T12, T13,
    ) -> Fut + Send + Sync + Clone + 'static,
    Fut: Future<Output = ()> + Send + 'static,
    T1: FromMessageParts<S> + Send,
    T2: FromMessageParts<S> + Send,
    T3: FromMessageParts<S> + Send,
    T4: FromMessageParts<S> + Send,
    T5: FromMessageParts<S> + Send,
    T6: FromMessageParts<S> + Send,
    T7: FromMessageParts<S> + Send,
    T8: FromMessageParts<S> + Send,
    T9: FromMessageParts<S> + Send,
    T10: FromMessageParts<S> + Send,
    T11: FromMessageParts<S> + Send,
    T12: FromMessageParts<S> + Send,
    T13: FromMessage<S, M> + Send,
 {
    type Output = Fut;

    open spec fn ready(&self) -> bool {
        forall|
            f: F, t1: T1, t2: T2, t3: T3, t4: T4, t5: T5, t6: T6, t7: T7, t8: T8, t9: T9,
            t10: T10, t11: T11, t12: T12, t13: T13,
        |
            cloned(*self, f) ==> #[trigger] call_requires(
                f, (t1, t2, t3, t4, t5, t6, t7, t8, t9, t10, t11, t12, t13),
            )
    }

    open spec fn handles(
        &self,
        s: S,
        v: Value,
        p: Vec<Vec<u8>>,
        ack_id: Option<i64>,
        output: Option<Fut>,
    ) -> bool {
        exists|extracted: Extracted<
            S, Via13<M>, Args13<T1, T2, T3, T4, T5, T6, T7, T8, T9, T10, T11, T12, T13>,
        >|
            {
                &&& #[trigger] <_ as FromMessage<S, Via13<M>>>::extracts(s, v, p, ack_id, extracted)
                &&& match extracted {
                    Ok(
                        Args(t1, Args(t2, Args(t3, Args(t4, Args(t5, Args(t6, Args(t7, Args(t8,
                        Args(t9, Args(t10, Args(t11, Args(t12, t13)))))))))))),
                    ) => {
                        output matches Some(output) && called13(
                            *self, t1, t2, t3, t4, t5, t6, t7, t8, t9, t10, t11, t12, t13,
                            output,
                        )
                    },
                    Err(_) => output is None,
                }
            }
    }

    fn call(&self, s: S, v: Value, p: Vec<Vec<u8>>, ack_id: Option<i64>) -> (output: Option<Fut>) {
        let extracted: Extracted<
            S, Via13<M>, Args13<T1, T2, T3, T4, T5, T6, T7, T8, T9, T10, T11, T12, T13>,
        > =
            <_ as FromMessage<S, Via13<M>>>::from_message(s, v, p, ack_id);
        match extracted {
            Ok(
                Args(t1, Args(t2, Args(t3, Args(t4, Args(t5, Args(t6, Args(t7, Args(t8, Args(t9,
                Args(t10, Args(t11, Args(t12, t13)))))))))))),
            ) => {
                let f = self.clone();
                let output = f(t1, t2, t3, t4, t5, t6, t7, t8, t9, t10, t11, t12, t13);
                assert(cloned(*self, f) && call_ensures(
                    f, (t1, t2, t3, t4, t5, t6, t7, t8, t9, t10, t11, t12, t13), output,
                ));
                assert(called13(
                    *self, t1, t2, t3, t4, t5, t6, t7, t8, t9, t10, t11, t12, t13, output,
                ));
                Some(output)
            },
            Err(_) => None,
        }
    }
}

/// A copy of the handler, called with the arguments, may return `output`.
pub open spec fn called14<F, R, T1, T2, T3, T4, T5, T6, T7, T8, T9, T10, T11, T12, T13, T14>(
    handler: F, t1: T1, t2: T2, t3: T3, t4: T4, t5: T5, t6: T6, t7: T7, t8: T8, t9: T9,
    t10: T10, t11: T11, t12: T12, t13: T13, t14: T14, output: R,
) -> bool where
    F: FnOnce(T1, T2, T3, T4, T5, T6, T7, T8, T9, T10, T11, T12, T13, T14) -> R + Clone,
 {
    exists|f: F|
        cloned(handler, f) && #[trigger] call_ensures(
            f, (t1, t2, t3, t4, t5, t6, t7, t8, t9, t10, t11, t12, t13, t14), output,
        )
}

/// Sync handler with 14 arguments
impl<S, M, F, T1, T2, T3, T4, T5, T6, T7, T8, T9, T10, T11, T12, T13, T14> MessageHandler<
    S,
    (private::Sync, M, T1, T2, T3, T4, T5, T6, T7, T8, T9, T10, T11, T12, T13, T14),
> for F where
    F: FnOnce(
        T1, T2, T3, T4, T5, T6, T7, T8, T9, T10, T11, T12, T13, T14,
    ) + Send + Sync + Clone + 'static,
    T1: FromMessageParts<S> + Send,
    T2: FromMessageParts<S> + Send,
    T3: FromMessageParts<S> + Send,
    T4: FromMessageParts<S> + Send,
    T5: FromMessageParts<S> + Send,
    T6: FromMessageParts<S> + Send,
    T7: FromMessageParts<S> + Send,
    T8: FromMessageParts<S> + Send,
    T9: FromMessageParts<S> + Send,
    T10: FromMessageParts<S> + Send,
    T11: FromMessageParts<S> + Send,
    T12: FromMessageParts<S> + Send,
    T13: FromMessageParts<S> + Send,
    T14: FromMessage<S, M> + Send,
 {
    type Output = ();

    open spec fn ready(&self) -> bool {
        forall|
            f: F, t1: T1, t2: T2, t3: T3, t4: T4, t5: T5, t6: T6, t7: T7, t8: T8, t9: T9,
            t10: T10, t11: T11, t12: T12, t13: T13, t14: T14,
        |
            cloned(*self, f) ==> #[trigger] call_requires(
                f, (t1, t2, t3, t4, t5, t6, t7, t8, t9, t10, t11, t12, t13, t14),
            )
    }

    open spec fn handles(
        &self,
        s: S,
        v: Value,
        p: Vec<Vec<u8>>,
        ack_id: Option<i64>,
        output: Option<()>,
    ) -> bool {
        exists|extracted: Extracted<
            S, Via14<M>, Args14<T1, T2, T3, T4, T5, T6, T7, T8, T9, T10, T11, T12, T13, T14>,
        >|
            {
                &&& #[trigger] <_ as FromMessage<S, Via14<M>>>::extracts(s, v, p, ack_id, extracted)
                &&& match extracted {
                    Ok(
                        Args(t1, Args(t2, Args(t3, Args(t4, Args(t5, Args(t6, Args(t7, Args(t8,
                        Args(t9, Args(t10, Args(t11, Args(t12, Args(t13, t14))))))))))))),
                    ) => {
                        output matches Some(output) && called14(
                            *self, t1, t2, t3, t4, t5, t6, t7, t8, t9, t10, t11, t12, t13, t14,
                            output,
                        )
                    },
                    Err(_) => output is None,
                }
            }
    }

    fn call(&self, s: S, v: Value, p: Vec<Vec<u8>>, ack_id: Option<i64>) -> (output: Option<()>) {
        let extracted: Extracted<
            S, Via14<M>, Args14<T1, T2, T3, T4, T5, T6, T7, T8, T9, T10, T11, T12, T13, T14>,
        > =
            <_ as FromMessage<S, Via14<M>>>::from_message(s, v, p, ack_id);
        match extracted {
            Ok(
                Args(t1, Args(t2, Args(t3, Args(t4, Args(t5, Args(t6, Args(t7, Args(t8, Args(t9,
                Args(t10, Args(t11, Args(t12, Args(t13, t14))))))))))))),
            ) => {
                let f = self.clone();
                let output = f(t1, t2, t3, t4, t5, t6, t7, t8, t9, t10, t11, t12, t13, t14);
                assert(cloned(*self, f) && call_ensures(
                    f, (t1, t2, t3, t4, t5, t6, t7, t8, t9, t10, t11, t12, t13, t14), output,
                ));
                assert(called14(
                    *self, t1, t2, t3, t4, t5, t6, t7, t8, t9, t10, t11, t12, t13, t14, output,
                ));
                Some(output)
            },
            Err(_) => None,
        }
    }
}

/// Async handler with 14 arguments
impl<S, M, F, Fut, T1, T2, T3, T4, T5, T6, T7, T8, T9, T10, T11, T12, T13, T14> MessageHandler<
    S,
    (private::Async, M, T1, T2, T3, T4, T5, T6, T7, T8, T9, T10, T11, T12, T13, T14),
> for F where
    F: FnOnce(
        T1, T2, T3, T4, T5, T6, T7, T8, T9, T10, T11, T12, T13, T14,
    ) -> Fut + Send + Sync + Clone + 'static,
    Fut: Future<Output = ()> + Send + 'static,
    T1: FromMessageParts<S> + Send,
    T2: FromMessageParts<S> + Send,
    T3: FromMessageParts<S> + Send,
    T4: FromMessageParts<S> + Send,
    T5: FromMessageParts<S> + Send,
    T6: FromMessageParts<S> + Send,
    T7: FromMessageParts<S> + Send,
    T8: FromMessageParts<S> + Send,
    T9: FromMessageParts<S> + Send,
    T10: FromMessageParts<S> + Send,
    T11: FromMessageParts<S> + Send,
    T12: FromMessageParts<S> + Send,
    T13: FromMessageParts<S> + Send,
    T14: FromMessage<S, M> + Send,
 {
    type Output = Fut;

    open spec fn ready(&self) -> bool {
        forall|
            f: F, t1: T1, t2: T2, t3: T3, t4: T4, t5: T5, t6: T6, t7: T7, t8: T8, t9: T9,
            t10: T10, t11: T11, t12: T12, t13: T13, t14: T14,
        |
            cloned(*self, f) ==> #[trigger] call_requires(
                f, (t1, t2, t3, t4, t5, t6, t7, t8, t9, t10, t11, t12, t13, t14),
            )
    }

    open spec fn handles(
        &self,
        s: S,
        v: Value,
        p: Vec<Vec<u8>>,
        ack_id: Option<i64>,
        output: Option<Fut>,
    ) -> bool {
        exists|extracted: Extracted<
            S, Via14<M>, Args14<T1, T2, T3, T4, T5, T6, T7, T8, T9, T10, T11, T12, T13, T14>,
        >|
            {
                &&& #[trigger] <_ as FromMessage<S, Via14<M>>>::extracts(s, v, p, ack_id, extracted)
                &&& match extracted {
                    Ok(
                        Args(t1, Args(t2, Args(t3, Args(t4, Args(t5, Args(t6, Args(t7, Args(t8,
                        Args(t9, Args(t10, Args(t11, Args(t12, Args(t13, t14))))))))))))),
                    ) => {
                        output matches Some(output) && called14(
                            *self, t1, t2, t3, t4, t5, t6, t7, t8, t9, t10, t11, t12, t13, t14,
                            output,
                        )
                    },
                    Err(_) => output is None,
                }
            }
    }

    fn call(&self, s: S, v: Value, p: Vec<Vec<u8>>, ack_id: Option<i64>) -> (output: Option<Fut>) {
        let extracted: Extracted<
            S, Via14<M>, Args14<T1, T2, T3, T4, T5, T6, T7, T8, T9, T10, T11, T12, T13, T14>,
        > =
            <_ as FromMessage<S, Via14<M>>>::from_message(s, v, p, ack_id);
        match extracted {
            Ok(
                Args(t1, Args(t2, Args(t3, Args(t4, Args(t5, Args(t6, Args(t7, Args(t8, Args(t9,
                Args(t10, Args(t11, Args(t12, Args(t13, t14))))))))))))),
            ) => {
                let f = self.clone();
                let output = f(t1, t2, t3, t4, t5, t6, t7, t8, t9, t10, t11, t12, t13, t14);
                assert(cloned(*self, f) && call_ensures(
                    f, (t1, t2, t3, t4, t5, t6, t7, t8, t9, t10, t11, t12, t13, t14), output,
                ));
                assert(called14(
                    *self, t1, t2, t3, t4, t5, t6, t7, t8, t9, t10, t11, t12, t13, t14, output,
                ));
                Some(output)
            },
            Err(_) => None,
        }
    }
}

/// A copy of the handler, called with the arguments, may return `output`.
pub open spec fn called15<F, R, T1, T2, T3, T4, T5, T6, T7, T8, T9, T10, T11, T12, T13, T14, T15>(
    handler: F, t1: T1, t2: T2, t3: T3, t4: T4, t5: T5, t6: T6, t7: T7, t8: T8, t9: T9,
    t10: T10, t11: T11, t12: T12, t13: T13, t14: T14, t15: T15, output: R,
) -> bool where
    F: FnOnce(T1, T2, T3, T4, T5, T6, T7, T8, T9, T10, T11, T12, T13, T14, T15) -> R + Clone,
 {
    exists|f: F|
        cloned(handler, f) && #[trigger] call_ensures(
            f, (t1, t2, t3, t4, t5, t6, t7, t8, t9, t10, t11, t12, t13, t14, t15), output,
        )
}

/// Sync handler with 15 arguments
impl<S, M, F, T1, T2, T3, T4, T5, T6, T7, T8, T9, T10, T11, T12, T13, T14, T15> MessageHandler<
    S,
    (private::Sync, M, T1, T2, T3, T4, T5, T6, T7, T8, T9, T10, T11, T12, T13, T14, T15),
> for F where
    F: FnOnce(
        T1, T2, T3, T4, T5, T6, T7, T8, T9, T10, T11, T12, T13, T14, T15,
    ) + Send + Sync + Clone + 'static,
    T1: FromMessageParts<S> + Send,
    T2: FromMessageParts<S> + Send,
    T3: FromMessageParts<S> + Send,
    T4: FromMessageParts<S> + Send,
    T5: FromMessageParts<S> + Send,
    T6: FromMessageParts<S> + Send,
    T7: FromMessageParts<S> + Send,
    T8: FromMessageParts<S> + Send,
    T9: FromMessageParts<S> + Send,
    T10: FromMessageParts<S> + Send,
    T11: FromMessageParts<S> + Send,
    T12: FromMessageParts<S> + Send,
    T13: FromMessageParts<S> + Send,
    T14: FromMessageParts<S> + Send,
    T15: FromMessage<S, M> + Send,
 {
    type Output = ();

    open spec fn ready(&self) -> bool {
        forall|
            f: F, t1: T1, t2: T2, t3: T3, t4: T4, t5: T5, t6: T6, t7: T7, t8: T8, t9: T9,
            t10: T10, t11: T11, t12: T12, t13: T13, t14: T14, t15: T15,
        |
            cloned(*self, f) ==> #[trigger] call_requires(
                f, (t1, t2, t3, t4, t5, t6, t7, t8, t9, t10, t11, t12, t13, t14, t15),
            )
    }

    open spec fn handles(
        &self,
        s: S,
        v: Value,
        p: Vec<Vec<u8>>,
        ack_id: Option<i64>,
        output: Option<()>,
    ) -> bool {
        exists|extracted: Extracted<
            S, Via15<M>,
            Args15<T1, T2, T3, T4, T5, T6, T7, T8, T9, T10, T11, T12, T13, T14, T15>,
        >|
            {
                &&& #[trigger] <_ as FromMessage<S, Via15<M>>>::extracts(s, v, p, ack_id, extracted)
                &&& match extracted {
                    Ok(
                        Args(t1, Args(t2, Args(t3, Args(t4, Args(t5, Args(t6, Args(t7, Args(t8,
                        Args(t9, Args(t10, Args(t11, Args(t12, Args(t13, Args(t14,
                        t15)))))))))))))),
                    ) => {
                        output matches Some(output) && called15(
                            *self, t1, t2, t3, t4, t5, t6, t7, t8, t9, t10, t11, t12, t13, t14,
                            t15, output,
                        )
                    },
                    Err(_) => output is None,
                }
            }
    }

    fn call(&self, s: S, v: Value, p: Vec<Vec<u8>>, ack_id: Option<i64>) -> (output: Option<()>) {
        let extracted: Extracted<
            S, Via15<M>,
            Args15<T1, T2, T3, T4, T5, T6, T7, T8, T9, T10, T11, T12, T13, T14, T15>,
        > =
            <_ as FromMessage<S, Via15<M>>>::from_message(s, v, p, ack_id);
        match extracted {
            Ok(
                Args(t1, Args(t2, Args(t3, Args(t4, Args(t5, Args(t6, Args(t7, Args(t8, Args(t9,
                Args(t10, Args(t11, Args(t12, Args(t13, Args(t14, t15)))))))))))))),
            ) => {
                let f = self.clone();
                let output = f(t1, t2, t3, t4, t5, t6, t7, t8, t9, t10, t11, t12, t13, t14, t15);
                assert(cloned(*self, f) && call_ensures(
                    f, (t1, t2, t3, t4, t5, t6, t7, t8, t9, t10, t11, t12, t13, t14, t15),
                    output,
                ));
                assert(called15(
                    *self, t1, t2, t3, t4, t5, t6, t7, t8, t9, t10, t11, t12, t13, t14, t15,
                    output,
                ));
                Some(output)
            },
            Err(_) => None,
        }
    }
}

/// Async handler with 15 arguments
impl<S, M, F, Fut, T1, T2, T3, T4, T5, T6, T7, T8, T9, T10, T11, T12, T13, T14, T15> MessageHandler<
    S,
    (private::Async, M, T1, T2, T3, T4, T5, T6, T7, T8, T9, T10, T11, T12, T13, T14, T15),
> for F where
    F: FnOnce(
        T1, T2, T3, T4, T5, T6, T7, T8, T9, T10, T11, T12, T13, T14, T15,
    ) -> Fut + Send + Sync + Clone + 'static,
    Fut: Future<Output = ()> + Send + 'static,
    T1: FromMessageParts<S> + Send,
    T2: FromMessageParts<S> + Send,
    T3: FromMessageParts<S> + Send,
    T4: FromMessageParts<S> + Send,
    T5: FromMessageParts<S> + Send,
    T6: FromMessageParts<S> + Send,
    T7: FromMessageParts<S> + Send,
    T8: FromMessageParts<S> + Send,
    T9: FromMessageParts<S> + Send,
    T10: FromMessageParts<S> + Send,
    T11: FromMessageParts<S> + Send,
    T12: FromMessageParts<S> + Send,
    T13: FromMessageParts<S> + Send,
    T14: FromMessageParts<S> + Send,
    T15: FromMessage<S, M> + Send,
 {
    type Output = Fut;

    open spec fn ready(&self) -> bool {
        forall|
            f: F, t1: T1, t2: T2, t3: T3, t4: T4, t5: T5, t6: T6, t7: T7, t8: T8, t9: T9,
            t10: T10, t11: T11, t12: T12, t13: T13, t14: T14, t15: T15,
        |
            cloned(*self, f) ==> #[trigger] call_requires(
                f, (t1, t2, t3, t4, t5, t6, t7, t8, t9, t10, t11, t12, t13, t14, t15),
            )
    }

    open spec fn handles(
        &self,
        s: S,
        v: Value,
        p: Vec<Vec<u8>>,
        ack_id: Option<i64>,
        output: Option<Fut>,
    ) -> bool {
        exists|extracted: Extracted<
            S, Via15<M>,
            Args15<T1, T2, T3, T4, T5, T6, T7, T8, T9, T10, T11, T12, T13, T14, T15>,
        >|
            {
                &&& #[trigger] <_ as FromMessage<S, Via15<M>>>::extracts(s, v, p, ack_id, extracted)
                &&& match extracted {
                    Ok(
                        Args(t1, Args(t2, Args(t3, Args(t4, Args(t5, Args(t6, Args(t7, Args(t8,
                        Args(t9, Args(t10, Args(t11, Args(t12, Args(t13, Args(t14,
                        t15)))))))))))))),
                    ) => {
                        output matches Some(output) && called15(
                            *self, t1, t2, t3, t4, t5, t6, t7, t8, t9, t10, t11, t12, t13, t14,
                            t15, output,
                        )
                    },
                    Err(_) => output is None,
                }
            }
    }

    fn call(&self, s: S, v: Value, p: Vec<Vec<u8>>, ack_id: Option<i64>) -> (output: Option<Fut>) {
        let extracted: Extracted<
            S, Via15<M>,
            Args15<T1, T2, T3, T4, T5, T6, T7, T8, T9, T10, T11, T12, T13, T14, T15>,
        > =
            <_ as FromMessage<S, Via15<M>>>::from_message(s, v, p, ack_id);
        match extracted {
            Ok(
                Args(t1, Args(t2, Args(t3, Args(t4, Args(t5, Args(t6, Args(t7, Args(t8, Args(t9,
                Args(t10, Args(t11, Args(t12, Args(t13, Args(t14, t15)))))))))))))),
            ) => {
                let f = self.clone();
                let output = f(t1, t2, t3, t4, t5, t6, t7, t8, t9, t10, t11, t12, t13, t14, t15);
                assert(cloned(*self, f) && call_ensures(
                    f, (t1, t2, t3, t4, t5, t6, t7, t8, t9, t10, t11, t12, t13, t14, t15),
                    output,
                ));
                assert(called15(
                    *self, t1, t2, t3, t4, t5, t6, t7, t8, t9, t10, t11, t12, t13, t14, t15,
                    output,
                ));
                Some(output)
            },
            Err(_) => None,
        }
    }
}

/// A copy of the handler, called with the arguments, may return `output`.
pub open spec fn called16<F, R, T1, T2, T3, T4, T5, T6, T7, T8, T9, T10, T11, T12, T13, T14, T15, T16>(
    handler: F, t1: T1, t2: T2, t3: T3, t4: T4, t5: T5, t6: T6, t7: T7, t8: T8, t9: T9,
    t10: T10, t11: T11, t12: T12, t13: T13, t14: T14, t15: T15, t16: T16, output: R,
) -> bool where
    F: FnOnce(T1, T2, T3, T4, T5, T6, T7, T8, T9, T10, T11, T12, T13, T14, T15, T16) -> R + Clone,
 {
    exists|f: F|
        cloned(handler, f) && #[trigger] call_ensures(
            f, (t1, t2, t3, t4, t5, t6, t7, t8, t9, t10, t11, t12, t13, t14, t15, t16), output,
        )
}

/// Sync handler with 16 arguments
impl<S, M, F, T1, T2, T3, T4, T5, T6, T7, T8, T9, T10, T11, T12, T13, T14, T15, T16> MessageHandler<
    S,
    (private::Sync, M, T1, T2, T3, T4, T5, T6, T7, T8, T9, T10, T11, T12, T13, T14, T15, T16),
> for F where
    F: FnOnce(
        T1, T2, T3, T4, T5, T6, T7, T8, T9, T10, T11, T12, T13, T14, T15, T16,
    ) + Send + Sync + Clone + 'static,
    T1: FromMessageParts<S> + Send,
    T2: FromMessageParts<S> + Send,
    T3: FromMessageParts<S> + Send,
    T4: FromMessageParts<S> + Send,
    T5: FromMessageParts<S> + Send,
    T6: FromMessageParts<S> + Send,
    T7: FromMessageParts<S> + Send,
    T8: FromMessageParts<S> + Send,
    T9: FromMessageParts<S> + Send,
    T10: FromMessageParts<S> + Send,
    T11: FromMessageParts<S> + Send,
    T12: FromMessageParts<S> + Send,
    T13: FromMessageParts<S> + Send,
    T14: FromMessageParts<S> + Send,
    T15: FromMessageParts<S> + Send,
    T16: FromMessage<S, M> + Send,
 {
    type Output = ();

    open spec fn ready(&self) -> bool {
        forall|
            f: F, t1: T1, t2: T2, t3: T3, t4: T4, t5: T5, t6: T6, t7: T7, t8: T8, t9: T9,
            t10: T10, t11: T11, t12: T12, t13: T13, t14: T14, t15: T15, t16: T16,
        |
            cloned(*self, f) ==> #[trigger] call_requires(
                f, (t1, t2, t3, t4, t5, t6, t7, t8, t9, t10, t11, t12, t13, t14, t15, t16),
            )
    }

    open spec fn handles(
        &self,
        s: S,
        v: Value,
        p: Vec<Vec<u8>>,
        ack_id: Option<i64>,
        output: Option<()>,
    ) -> bool {
        exists|extracted: Extracted<
            S, Via16<M>,
            Args16<T1, T2, T3, T4, T5, T6, T7, T8, T9, T10, T11, T12, T13, T14, T15, T16>,
        >|
            {
                &&& #[trigger] <_ as FromMessage<S, Via16<M>>>::extracts(s, v, p, ack_id, extracted)
                &&& match extracted {
                    Ok(
                        Args(t1, Args(t2, Args(t3, Args(t4, Args(t5, Args(t6, Args(t7, Args(t8,
                        Args(t9, Args(t10, Args(t11, Args(t12, Args(t13, Args(t14, Args(t15,
                        t16))))))))))))))),
                    ) => {
                        output matches Some(output) && called16(
                            *self, t1, t2, t3, t4, t5, t6, t7, t8, t9, t10, t11, t12, t13, t14,
                            t15, t16, output,
                        )
                    },
                    Err(_) => output is None,
                }
            }
    }

    fn call(&self, s: S, v: Value, p: Vec<Vec<u8>>, ack_id: Option<i64>) -> (output: Option<()>) {
        let extracted: Extracted<
            S, Via16<M>,
            Args16<T1, T2, T3, T4, T5, T6, T7, T8, T9, T10, T11, T12, T13, T14, T15, T16>,
        > =
            <_ as FromMessage<S, Via16<M>>>::from_message(s, v, p, ack_id);
        match extracted {
            Ok(
                Args(t1, Args(t2, Args(t3, Args(t4, Args(t5, Args(t6, Args(t7, Args(t8, Args(t9,
                Args(t10, Args(t11, Args(t12, Args(t13, Args(t14, Args(t15, t16))))))))))))))),
            ) => {
                let f = self.clone();
                let output = f(
                    t1, t2, t3, t4, t5, t6, t7, t8, t9, t10, t11, t12, t13, t14, t15, t16,
                );
                assert(cloned(*self, f) && call_ensures(
                    f, (t1, t2, t3, t4, t5, t6, t7, t8, t9, t10, t11, t12, t13, t14, t15, t16),
                    output,
                ));
                assert(called16(
                    *self, t1, t2, t3, t4, t5, t6, t7, t8, t9, t10, t11, t12, t13, t14, t15,
                    t16, output,
                ));
                Some(output)
            },
            Err(_) => None,
        }
    }
}

/// Async handler with 16 arguments
impl<S, M, F, Fut, T1, T2, T3, T4, T5, T6, T7, T8, T9, T10, T11, T12, T13, T14, T15, T16> MessageHandler<
    S,
    (private::Async, M, T1, T2, T3, T4, T5, T6, T7, T8, T9, T10, T11, T12, T13, T14, T15, T16),
> for F where
    F: FnOnce(
        T1, T2, T3, T4, T5, T6, T7, T8, T9, T10, T11, T12, T13, T14, T15, T16,
    ) -> Fut + Send + Sync + Clone + 'static,
    Fut: Future<Output = ()> + Send + 'static,
    T1: FromMessageParts<S> + Send,
    T2: FromMessageParts<S> + Send,
    T3: FromMessageParts<S> + Send,
    T4: FromMessageParts<S> + Send,
    T5: FromMessageParts<S> + Send,
    T6: FromMessageParts<S> + Send,
    T7: FromMessageParts<S> + Send,
    T8: FromMessageParts<S> + Send,
    T9: FromMessageParts<S> + Send,
    T10: FromMessageParts<S> + Send,
    T11: FromMessageParts<S> + Send,
    T12: FromMessageParts<S> + Send,
    T13: FromMessageParts<S> + Send,
    T14: FromMessageParts<S> + Send,
    T15: FromMessageParts<S> + Send,
    T16: FromMessage<S, M> + Send,
 {
    type Output = Fut;

    open spec fn ready(&self) -> bool {
        forall|
            f: F, t1: T1, t2: T2, t3: T3, t4: T4, t5: T5, t6: T6, t7: T7, t8: T8, t9: T9,
            t10: T10, t11: T11, t12: T12, t13: T13, t14: T14, t15: T15, t16: T16,
        |
            cloned(*self, f) ==> #[trigger] call_requires(
                f, (t1, t2, t3, t4, t5, t6, t7, t8, t9, t10, t11, t12, t13, t14, t15, t16),
            )
    }

    open spec fn handles(
        &self,
        s: S,
        v: Value,
        p: Vec<Vec<u8>>,
        ack_id: Option<i64>,
        output: Option<Fut>,
    ) -> bool {
        exists|extracted: Extracted<
            S, Via16<M>,
            Args16<T1, T2, T3, T4, T5, T6, T7, T8, T9, T10, T11, T12, T13, T14, T15, T16>,
        >|
            {
                &&& #[trigger] <_ as FromMessage<S, Via16<M>>>::extracts(s, v, p, ack_id, extracted)
                &&& match extracted {
                    Ok(
                        Args(t1, Args(t2, Args(t3, Args(t4, Args(t5, Args(t6, Args(t7, Args(t8,
                        Args(t9, Args(t10, Args(t11, Args(t12, Args(t13, Args(t14, Args(t15,
                        t16))))))))))))))),
                    ) => {
                        output matches Some(output) && called16(
                            *self, t1, t2, t3, t4, t5, t6, t7, t8, t9, t10, t11, t12, t13, t14,
                            t15, t16, output,
                        )
                    },
                    Err(_) => output is None,
                }
            }
    }

    fn call(&self, s: S, v: Value, p: Vec<Vec<u8>>, ack_id: Option<i64>) -> (output: Option<Fut>) {
        let extracted: Extracted<
            S, Via16<M>,
            Args16<T1, T2, T3, T4, T5, T6, T7, T8, T9, T10, T11, T12, T13, T14, T15, T16>,
        > =
            <_ as FromMessage<S, Via16<M>>>::from_message(s, v, p, ack_id);
        match extracted {
            Ok(
                Args(t1, Args(t2, Args(t3, Args(t4, Args(t5, Args(t6, Args(t7, Args(t8, Args(t9,
                Args(t10, Args(t11, Args(t12, Args(t13, Args(t14, Args(t15, t16))))))))))))))),
            ) => {
                let f = self.clone();
                let output = f(
                    t1, t2, t3, t4, t5, t6, t7, t8, t9, t10, t11, t12, t13, t14, t15, t16,
                );
                assert(cloned(*self, f) && call_ensures(
                    f, (t1, t2, t3, t4, t5, t6, t7, t8, t9, t10, t11, t12, t13, t14, t15, t16),
                    output,
                ));
                assert(called16(
                    *self, t1, t2, t3, t4, t5, t6, t7, t8, t9, t10, t11, t12, t13, t14, t15,
                    t16, output,
                ));
                Some(output)
            },
            Err(_) => None,
        }
    }
}

} // verus!
