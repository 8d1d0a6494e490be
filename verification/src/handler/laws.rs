//! What holds of the handlers, for closures with any number of arguments.
use super::message::{
    Args, Args2, Args3, Args4, Args5, Args6, Args7, Args8, Args9, Args10, Args11, Args12, Args13,
    Args14, Args15, Args16, Extracted, FromMessage, FromMessageParts, MessageHandler, Via2, Via3,
    Via4, Via5, Via6, Via7, Via8, Via9, Via10, Via11, Via12, Via13, Via14, Via15, Via16,
};
use super::private;
use serde_json::Value;
use std::future::Future;
use vstd::prelude::*;

verus! {

/// A sync handler with no arguments may be called if its copies may be called. It is
/// always called, and what comes out is what a copy of it returned.
pub proof fn law_sync_handler_0<S, F>(
    handler: F,
    s: S,
    v: Value,
    p: Vec<Vec<u8>>,
    ack_id: Option<i64>,
    output: Option<()>,
) where
    F: FnOnce() + Send + Sync + Clone + 'static,

    ensures
        ({
            forall|f: F|
                #[trigger] cloned(handler, f) ==> call_requires(f, ())
        }) ==> (
            <F as MessageHandler<S, (private::Sync,)>>::ready(&handler)
        ),
        (
            <F as MessageHandler<S, (private::Sync,)>>::handles(&handler, s, v, p, ack_id, output)
        ) ==> output is Some && exists|f: F| #[trigger]
            cloned(handler, f) && call_ensures(f, (), output->0),
{
}

/// An async handler with no arguments may be called if its copies may be called. It is
/// always called, and what comes out is what a copy of it returned.
pub proof fn law_async_handler_0<S, F, Fut>(
    handler: F,
    s: S,
    v: Value,
    p: Vec<Vec<u8>>,
    ack_id: Option<i64>,
    output: Option<Fut>,
) where
    F: FnOnce() -> Fut + Send + Sync + Clone + 'static,
    Fut: Future<Output = ()> + Send + 'static,

    ensures
        ({
            forall|f: F|
                #[trigger] cloned(handler, f) ==> call_requires(f, ())
        }) ==> (
            <F as MessageHandler<S, (private::Async,)>>::ready(&handler)
        ),
        (
            <F as MessageHandler<S, (private::Async,)>>::handles(&handler, s, v, p, ack_id, output)
        ) ==> output is Some && exists|f: F| #[trigger]
            cloned(handler, f) && call_ensures(f, (), output->0),
{
}

/// A sync handler with 1 argument may be called if its copies may be called with whatever
/// is extracted. What comes out is what a copy of it returned for arguments that were
/// extracted from the message, and nothing comes out only if they could not be.
pub proof fn law_sync_handler_1<S, M, F, T1>(
    handler: F,
    s: S,
    v: Value,
    p: Vec<Vec<u8>>,
    ack_id: Option<i64>,
    output: Option<()>,
) where
    F: FnOnce(T1) + Send + Sync + Clone + 'static,
    T1: FromMessage<S, M> + Send,

    ensures
        ({
            forall|f: F, t1: T1|
                cloned(handler, f) ==> #[trigger] call_requires(f, (t1,))
        }) ==> (
            <F as MessageHandler<S, (private::Sync, M, T1)>>::ready(&handler)
        ),
        (
            <F as MessageHandler<
                S,
                (private::Sync, M, T1),
            >>::handles(&handler, s, v, p, ack_id, output)
        ) && output is Some ==> ({
            exists|f: F, t1: T1|
                {
                    &&& cloned(handler, f)
                    &&& #[trigger] call_ensures(f, (t1,), output->0)
                    &&& <_ as FromMessage<S, M>>::extracts(
                        s,
                        v,
                        p,
                        ack_id,
                        Ok(t1),
                    )
                }
        }),
        (
            <F as MessageHandler<
                S,
                (private::Sync, M, T1),
            >>::handles(&handler, s, v, p, ack_id, output)
        ) && output is None ==> ({
            exists|extracted: Extracted<S, M, T1>|
                {
                    &&& extracted is Err
                    &&& #[trigger] <_ as FromMessage<S, M>>::extracts(
                        s,
                        v,
                        p,
                        ack_id,
                        extracted,
                    )
                }
        }),
{
}

/// An async handler with 1 argument may be called if its copies may be called with whatever
/// is extracted. What comes out is what a copy of it returned for arguments that were
/// extracted from the message, and nothing comes out only if they could not be.
pub proof fn law_async_handler_1<S, M, F, Fut, T1>(
    handler: F,
    s: S,
    v: Value,
    p: Vec<Vec<u8>>,
    ack_id: Option<i64>,
    output: Option<Fut>,
) where
    F: FnOnce(T1) -> Fut + Send + Sync + Clone + 'static,
    Fut: Future<Output = ()> + Send + 'static,
    T1: FromMessage<S, M> + Send,

    ensures
        ({
            forall|f: F, t1: T1|
                cloned(handler, f) ==> #[trigger] call_requires(f, (t1,))
        }) ==> (
            <F as MessageHandler<S, (private::Async, M, T1)>>::ready(&handler)
        ),
        (
            <F as MessageHandler<
                S,
                (private::Async, M, T1),
            >>::handles(&handler, s, v, p, ack_id, output)
        ) && output is Some ==> ({
            exists|f: F, t1: T1|
                {
                    &&& cloned(handler, f)
                    &&& #[trigger] call_ensures(f, (t1,), output->0)
                    &&& <_ as FromMessage<S, M>>::extracts(
                        s,
                        v,
                        p,
                        ack_id,
                        Ok(t1),
                    )
                }
        }),
        (
            <F as MessageHandler<
                S,
                (private::Async, M, T1),
            >>::handles(&handler, s, v, p, ack_id, output)
        ) && output is None ==> ({
            exists|extracted: Extracted<S, M, T1>|
                {
                    &&& extracted is Err
                    &&& #[trigger] <_ as FromMessage<S, M>>::extracts(
                        s,
                        v,
                        p,
                        ack_id,
                        extracted,
                    )
                }
        }),
{
}

/// A sync handler with 2 arguments may be called if its copies may be called with whatever
/// is extracted. What comes out is what a copy of it returned for arguments that were
/// extracted from the message, and nothing comes out only if they could not be.
pub proof fn law_sync_handler_2<S, M, F, T1, T2>(
    handler: F,
    s: S,
    v: Value,
    p: Vec<Vec<u8>>,
    ack_id: Option<i64>,
    output: Option<()>,
) where
    F: FnOnce(T1, T2) + Send + Sync + Clone + 'static,
    T1: FromMessageParts<S> + Send,
    T2: FromMessage<S, M> + Send,

    ensures
        ({
            forall|f: F, t1: T1, t2: T2|
                cloned(handler, f) ==> #[trigger] call_requires(f, (t1, t2))
        }) ==> (
            <F as MessageHandler<S, (private::Sync, M, T1, T2)>>::ready(&handler)
        ),
        (
            <F as MessageHandler<
                S,
                (private::Sync, M, T1, T2),
            >>::handles(&handler, s, v, p, ack_id, output)
        ) && output is Some ==> ({
            exists|f: F, t1: T1, t2: T2|
                {
                    &&& cloned(handler, f)
                    &&& #[trigger] call_ensures(f, (t1, t2), output->0)
                    &&& <_ as FromMessage<S, Via2<M>>>::extracts(
                        s,
                        v,
                        p,
                        ack_id,
                        Ok(
                            Args(t1, t2),
                        ),
                    )
                }
        }),
        (
            <F as MessageHandler<
                S,
                (private::Sync, M, T1, T2),
            >>::handles(&handler, s, v, p, ack_id, output)
        ) && output is None ==> ({
            exists|extracted: Extracted<S, Via2<M>, Args2<T1, T2>>|
                {
                    &&& extracted is Err
                    &&& #[trigger] <_ as FromMessage<S, Via2<M>>>::extracts(
                        s,
                        v,
                        p,
                        ack_id,
                        extracted,
                    )
                }
        }),
{
}

/// An async handler with 2 arguments may be called if its copies may be called with whatever
/// is extracted. What comes out is what a copy of it returned for arguments that were
/// extracted from the message, and nothing comes out only if they could not be.
pub proof fn law_async_handler_2<S, M, F, Fut, T1, T2>(
    handler: F,
    s: S,
    v: Value,
    p: Vec<Vec<u8>>,
    ack_id: Option<i64>,
    output: Option<Fut>,
) where
    F: FnOnce(T1, T2) -> Fut + Send + Sync + Clone + 'static,
    Fut: Future<Output = ()> + Send + 'static,
    T1: FromMessageParts<S> + Send,
    T2: FromMessage<S, M> + Send,

    ensures
        ({
            forall|f: F, t1: T1, t2: T2|
                cloned(handler, f) ==> #[trigger] call_requires(f, (t1, t2))
        }) ==> (
            <F as MessageHandler<S, (private::Async, M, T1, T2)>>::ready(&handler)
        ),
        (
            <F as MessageHandler<
                S,
                (private::Async, M, T1, T2),
            >>::handles(&handler, s, v, p, ack_id, output)
        ) && output is Some ==> ({
            exists|f: F, t1: T1, t2: T2|
                {
                    &&& cloned(handler, f)
                    &&& #[trigger] call_ensures(f, (t1, t2), output->0)
                    &&& <_ as FromMessage<S, Via2<M>>>::extracts(
                        s,
                        v,
                        p,
                        ack_id,
                        Ok(
                            Args(t1, t2),
                        ),
                    )
                }
        }),
        (
            <F as MessageHandler<
                S,
                (private::Async, M, T1, T2),
            >>::handles(&handler, s, v, p, ack_id, output)
        ) && output is None ==> ({
            exists|extracted: Extracted<S, Via2<M>, Args2<T1, T2>>|
                {
                    &&& extracted is Err
                    &&& #[trigger] <_ as FromMessage<S, Via2<M>>>::extracts(
                        s,
                        v,
                        p,
                        ack_id,
                        extracted,
                    )
                }
        }),
{
}

/// A sync handler with 3 arguments may be called if its copies may be called with whatever
/// is extracted. What comes out is what a copy of it returned for arguments that were
/// extracted from the message, and nothing comes out only if they could not be.
pub proof fn law_sync_handler_3<S, M, F, T1, T2, T3>(
    handler: F,
    s: S,
    v: Value,
    p: Vec<Vec<u8>>,
    ack_id: Option<i64>,
    output: Option<()>,
) where
    F: FnOnce(T1, T2, T3) + Send + Sync + Clone + 'static,
    T1: FromMessageParts<S> + Send,
    T2: FromMessageParts<S> + Send,
    T3: FromMessage<S, M> + Send,

    ensures
        ({
            forall|f: F, t1: T1, t2: T2, t3: T3|
                cloned(handler, f) ==> #[trigger] call_requires(f, (t1, t2, t3))
        }) ==> (
            <F as MessageHandler<S, (private::Sync, M, T1, T2, T3)>>::ready(&handler)
        ),
        (
            <F as MessageHandler<
                S,
                (private::Sync, M, T1, T2, T3),
            >>::handles(&handler, s, v, p, ack_id, output)
        ) && output is Some ==> ({
            exists|f: F, t1: T1, t2: T2, t3: T3|
                {
                    &&& cloned(handler, f)
                    &&& #[trigger] call_ensures(f, (t1, t2, t3), output->0)
                    &&& <_ as FromMessage<S, Via3<M>>>::extracts(
                        s,
                        v,
                        p,
                        ack_id,
                        Ok(
                            Args(t1, Args(t2, t3)),
                        ),
                    )
                }
        }),
        (
            <F as MessageHandler<
                S,
                (private::Sync, M, T1, T2, T3),
            >>::handles(&handler, s, v, p, ack_id, output)
        ) && output is None ==> ({
            exists|extracted: Extracted<S, Via3<M>, Args3<T1, T2, T3>>|
                {
                    &&& extracted is Err
                    &&& #[trigger] <_ as FromMessage<S, Via3<M>>>::extracts(
                        s,
                        v,
                        p,
                        ack_id,
                        extracted,
                    )
                }
        }),
{
}

/// An async handler with 3 arguments may be called if its copies may be called with whatever
/// is extracted. What comes out is what a copy of it returned for arguments that were
/// extracted from the message, and nothing comes out only if they could not be.
pub proof fn law_async_handler_3<S, M, F, Fut, T1, T2, T3>(
    handler: F,
    s: S,
    v: Value,
    p: Vec<Vec<u8>>,
    ack_id: Option<i64>,
    output: Option<Fut>,
) where
    F: FnOnce(T1, T2, T3) -> Fut + Send + Sync + Clone + 'static,
    Fut: Future<Output = ()> + Send + 'static,
    T1: FromMessageParts<S> + Send,
    T2: FromMessageParts<S> + Send,
    T3: FromMessage<S, M> + Send,

    ensures
        ({
            forall|f: F, t1: T1, t2: T2, t3: T3|
                cloned(handler, f) ==> #[trigger] call_requires(f, (t1, t2, t3))
        }) ==> (
            <F as MessageHandler<S, (private::Async, M, T1, T2, T3)>>::ready(&handler)
        ),
        (
            <F as MessageHandler<
                S,
                (private::Async, M, T1, T2, T3),
            >>::handles(&handler, s, v, p, ack_id, output)
        ) && output is Some ==> ({
            exists|f: F, t1: T1, t2: T2, t3: T3|
                {
                    &&& cloned(handler, f)
                    &&& #[trigger] call_ensures(f, (t1, t2, t3), output->0)
                    &&& <_ as FromMessage<S, Via3<M>>>::extracts(
                        s,
                        v,
                        p,
                        ack_id,
                        Ok(
                            Args(t1, Args(t2, t3)),
                        ),
                    )
                }
        }),
        (
            <F as MessageHandler<
                S,
                (private::Async, M, T1, T2, T3),
            >>::handles(&handler, s, v, p, ack_id, output)
        ) && output is None ==> ({
            exists|extracted: Extracted<S, Via3<M>, Args3<T1, T2, T3>>|
                {
                    &&& extracted is Err
                    &&& #[trigger] <_ as FromMessage<S, Via3<M>>>::extracts(
                        s,
                        v,
                        p,
                        ack_id,
                        extracted,
                    )
                }
        }),
{
}

/// A sync handler with 4 arguments may be called if its copies may be called with whatever
/// is extracted. What comes out is what a copy of it returned for arguments that were
/// extracted from the message, and nothing comes out only if they could not be.
pub proof fn law_sync_handler_4<S, M, F, T1, T2, T3, T4>(
    handler: F,
    s: S,
    v: Value,
    p: Vec<Vec<u8>>,
    ack_id: Option<i64>,
    output: Option<()>,
) where
    F: FnOnce(T1, T2, T3, T4) + Send + Sync + Clone + 'static,
    T1: FromMessageParts<S> + Send,
    T2: FromMessageParts<S> + Send,
    T3: FromMessageParts<S> + Send,
    T4: FromMessage<S, M> + Send,

    ensures
        ({
            forall|f: F, t1: T1, t2: T2, t3: T3, t4: T4|
                cloned(handler, f) ==> #[trigger] call_requires(f, (t1, t2, t3, t4))
        }) ==> (
            <F as MessageHandler<S, (private::Sync, M, T1, T2, T3, T4)>>::ready(&handler)
        ),
        (
            <F as MessageHandler<
                S,
                (private::Sync, M, T1, T2, T3, T4),
            >>::handles(&handler, s, v, p, ack_id, output)
        ) && output is Some ==> ({
            exists|f: F, t1: T1, t2: T2, t3: T3, t4: T4|
                {
                    &&& cloned(handler, f)
                    &&& #[trigger] call_ensures(f, (t1, t2, t3, t4), output->0)
                    &&& <_ as FromMessage<S, Via4<M>>>::extracts(
                        s,
                        v,
                        p,
                        ack_id,
                        Ok(
                            Args(t1, Args(t2, Args(t3, t4))),
                        ),
                    )
                }
        }),
        (
            <F as MessageHandler<
                S,
                (private::Sync, M, T1, T2, T3, T4),
            >>::handles(&handler, s, v, p, ack_id, output)
        ) && output is None ==> ({
            exists|extracted: Extracted<S, Via4<M>, Args4<T1, T2, T3, T4>>|
                {
                    &&& extracted is Err
                    &&& #[trigger] <_ as FromMessage<S, Via4<M>>>::extracts(
                        s,
                        v,
                        p,
                        ack_id,
                        extracted,
                    )
                }
        }),
{
}

/// An async handler with 4 arguments may be called if its copies may be called with whatever
/// is extracted. What comes out is what a copy of it returned for arguments that were
/// extracted from the message, and nothing comes out only if they could not be.
pub proof fn law_async_handler_4<S, M, F, Fut, T1, T2, T3, T4>(
    handler: F,
    s: S,
    v: Value,
    p: Vec<Vec<u8>>,
    ack_id: Option<i64>,
    output: Option<Fut>,
) where
    F: FnOnce(T1, T2, T3, T4) -> Fut + Send + Sync + Clone + 'static,
    Fut: Future<Output = ()> + Send + 'static,
    T1: FromMessageParts<S> + Send,
    T2: FromMessageParts<S> + Send,
    T3: FromMessageParts<S> + Send,
    T4: FromMessage<S, M> + Send,

    ensures
        ({
            forall|f: F, t1: T1, t2: T2, t3: T3, t4: T4|
                cloned(handler, f) ==> #[trigger] call_requires(f, (t1, t2, t3, t4))
        }) ==> (
            <F as MessageHandler<S, (private::Async, M, T1, T2, T3, T4)>>::ready(&handler)
        ),
        (
            <F as MessageHandler<
                S,
                (private::Async, M, T1, T2, T3, T4),
            >>::handles(&handler, s, v, p, ack_id, output)
        ) && output is Some ==> ({
            exists|f: F, t1: T1, t2: T2, t3: T3, t4: T4|
                {
                    &&& cloned(handler, f)
                    &&& #[trigger] call_ensures(f, (t1, t2, t3, t4), output->0)
                    &&& <_ as FromMessage<S, Via4<M>>>::extracts(
                        s,
                        v,
                        p,
                        ack_id,
                        Ok(
                            Args(t1, Args(t2, Args(t3, t4))),
                        ),
                    )
                }
        }),
        (
            <F as MessageHandler<
                S,
                (private::Async, M, T1, T2, T3, T4),
            >>::handles(&handler, s, v, p, ack_id, output)
        ) && output is None ==> ({
            exists|extracted: Extracted<S, Via4<M>, Args4<T1, T2, T3, T4>>|
                {
                    &&& extracted is Err
                    &&& #[trigger] <_ as FromMessage<S, Via4<M>>>::extracts(
                        s,
                        v,
                        p,
                        ack_id,
                        extracted,
                    )
                }
        }),
{
}

/// A sync handler with 5 arguments may be called if its copies may be called with whatever
/// is extracted. What comes out is what a copy of it returned for arguments that were
/// extracted from the message, and nothing comes out only if they could not be.
pub proof fn law_sync_handler_5<S, M, F, T1, T2, T3, T4, T5>(
    handler: F,
    s: S,
    v: Value,
    p: Vec<Vec<u8>>,
    ack_id: Option<i64>,
    output: Option<()>,
) where
    F: FnOnce(T1, T2, T3, T4, T5) + Send + Sync + Clone + 'static,
    T1: FromMessageParts<S> + Send,
    T2: FromMessageParts<S> + Send,
    T3: FromMessageParts<S> + Send,
    T4: FromMessageParts<S> + Send,
    T5: FromMessage<S, M> + Send,

    ensures
        ({
            forall|f: F, t1: T1, t2: T2, t3: T3, t4: T4, t5: T5|
                cloned(handler, f) ==> #[trigger] call_requires(f, (t1, t2, t3, t4, t5))
        }) ==> (
            <F as MessageHandler<S, (private::Sync, M, T1, T2, T3, T4, T5)>>::ready(&handler)
        ),
        (
            <F as MessageHandler<
                S,
                (private::Sync, M, T1, T2, T3, T4, T5),
            >>::handles(&handler, s, v, p, ack_id, output)
        ) && output is Some ==> ({
            exists|f: F, t1: T1, t2: T2, t3: T3, t4: T4, t5: T5|
                {
                    &&& cloned(handler, f)
                    &&& #[trigger] call_ensures(f, (t1, t2, t3, t4, t5), output->0)
                    &&& <_ as FromMessage<S, Via5<M>>>::extracts(
                        s,
                        v,
                        p,
                        ack_id,
                        Ok(
                            Args(t1, Args(t2, Args(t3, Args(t4, t5)))),
                        ),
                    )
                }
        }),
        (
            <F as MessageHandler<
                S,
                (private::Sync, M, T1, T2, T3, T4, T5),
            >>::handles(&handler, s, v, p, ack_id, output)
        ) && output is None ==> ({
            exists|extracted: Extracted<S, Via5<M>, Args5<T1, T2, T3, T4, T5>>|
                {
                    &&& extracted is Err
                    &&& #[trigger] <_ as FromMessage<S, Via5<M>>>::extracts(
                        s,
                        v,
                        p,
                        ack_id,
                        extracted,
                    )
                }
        }),
{
}

/// An async handler with 5 arguments may be called if its copies may be called with whatever
/// is extracted. What comes out is what a copy of it returned for arguments that were
/// extracted from the message, and nothing comes out only if they could not be.
pub proof fn law_async_handler_5<S, M, F, Fut, T1, T2, T3, T4, T5>(
    handler: F,
    s: S,
    v: Value,
    p: Vec<Vec<u8>>,
    ack_id: Option<i64>,
    output: Option<Fut>,
) where
    F: FnOnce(T1, T2, T3, T4, T5) -> Fut + Send + Sync + Clone + 'static,
    Fut: Future<Output = ()> + Send + 'static,
    T1: FromMessageParts<S> + Send,
    T2: FromMessageParts<S> + Send,
    T3: FromMessageParts<S> + Send,
    T4: FromMessageParts<S> + Send,
    T5: FromMessage<S, M> + Send,

    ensures
        ({
            forall|f: F, t1: T1, t2: T2, t3: T3, t4: T4, t5: T5|
                cloned(handler, f) ==> #[trigger] call_requires(f, (t1, t2, t3, t4, t5))
        }) ==> (
            <F as MessageHandler<S, (private::Async, M, T1, T2, T3, T4, T5)>>::ready(&handler)
        ),
        (
            <F as MessageHandler<
                S,
                (private::Async, M, T1, T2, T3, T4, T5),
            >>::handles(&handler, s, v, p, ack_id, output)
        ) && output is Some ==> ({
            exists|f: F, t1: T1, t2: T2, t3: T3, t4: T4, t5: T5|
                {
                    &&& cloned(handler, f)
                    &&& #[trigger] call_ensures(f, (t1, t2, t3, t4, t5), output->0)
                    &&& <_ as FromMessage<S, Via5<M>>>::extracts(
                        s,
                        v,
                        p,
                        ack_id,
                        Ok(
                            Args(t1, Args(t2, Args(t3, Args(t4, t5)))),
                        ),
                    )
                }
        }),
        (
            <F as MessageHandler<
                S,
                (private::Async, M, T1, T2, T3, T4, T5),
            >>::handles(&handler, s, v, p, ack_id, output)
        ) && output is None ==> ({
            exists|extracted: Extracted<S, Via5<M>, Args5<T1, T2, T3, T4, T5>>|
                {
                    &&& extracted is Err
                    &&& #[trigger] <_ as FromMessage<S, Via5<M>>>::extracts(
                        s,
                        v,
                        p,
                        ack_id,
                        extracted,
                    )
                }
        }),
{
}

/// A sync handler with 6 arguments may be called if its copies may be called with whatever
/// is extracted. What comes out is what a copy of it returned for arguments that were
/// extracted from the message, and nothing comes out only if they could not be.
pub proof fn law_sync_handler_6<S, M, F, T1, T2, T3, T4, T5, T6>(
    handler: F,
    s: S,
    v: Value,
    p: Vec<Vec<u8>>,
    ack_id: Option<i64>,
    output: Option<()>,
) where
    F: FnOnce(T1, T2, T3, T4, T5, T6) + Send + Sync + Clone + 'static,
    T1: FromMessageParts<S> + Send,
    T2: FromMessageParts<S> + Send,
    T3: FromMessageParts<S> + Send,
    T4: FromMessageParts<S> + Send,
    T5: FromMessageParts<S> + Send,
    T6: FromMessage<S, M> + Send,

    ensures
        ({
            forall|f: F, t1: T1, t2: T2, t3: T3, t4: T4, t5: T5, t6: T6|
                cloned(handler, f) ==> #[trigger] call_requires(f, (t1, t2, t3, t4, t5, t6))
        }) ==> (
            <F as MessageHandler<S, (private::Sync, M, T1, T2, T3, T4, T5, T6)>>::ready(&handler)
        ),
        (
            <F as MessageHandler<
                S,
                (private::Sync, M, T1, T2, T3, T4, T5, T6),
            >>::handles(&handler, s, v, p, ack_id, output)
        ) && output is Some ==> ({
            exists|f: F, t1: T1, t2: T2, t3: T3, t4: T4, t5: T5, t6: T6|
                {
                    &&& cloned(handler, f)
                    &&& #[trigger] call_ensures(f, (t1, t2, t3, t4, t5, t6), output->0)
                    &&& <_ as FromMessage<S, Via6<M>>>::extracts(
                        s,
                        v,
                        p,
                        ack_id,
                        Ok(
                            Args(t1, Args(t2, Args(t3, Args(t4, Args(t5, t6))))),
                        ),
                    )
                }
        }),
        (
            <F as MessageHandler<
                S,
                (private::Sync, M, T1, T2, T3, T4, T5, T6),
            >>::handles(&handler, s, v, p, ack_id, output)
        ) && output is None ==> ({
            exists|extracted: Extracted<S, Via6<M>, Args6<T1, T2, T3, T4, T5, T6>>|
                {
                    &&& extracted is Err
                    &&& #[trigger] <_ as FromMessage<S, Via6<M>>>::extracts(
                        s,
                        v,
                        p,
                        ack_id,
                        extracted,
                    )
                }
        }),
{
}

/// An async handler with 6 arguments may be called if its copies may be called with whatever
/// is extracted. What comes out is what a copy of it returned for arguments that were
/// extracted from the message, and nothing comes out only if they could not be.
pub proof fn law_async_handler_6<S, M, F, Fut, T1, T2, T3, T4, T5, T6>(
    handler: F,
    s: S,
    v: Value,
    p: Vec<Vec<u8>>,
    ack_id: Option<i64>,
    output: Option<Fut>,
) where
    F: FnOnce(T1, T2, T3, T4, T5, T6) -> Fut + Send + Sync + Clone + 'static,
    Fut: Future<Output = ()> + Send + 'static,
    T1: FromMessageParts<S> + Send,
    T2: FromMessageParts<S> + Send,
    T3: FromMessageParts<S> + Send,
    T4: FromMessageParts<S> + Send,
    T5: FromMessageParts<S> + Send,
    T6: FromMessage<S, M> + Send,

    ensures
        ({
            forall|f: F, t1: T1, t2: T2, t3: T3, t4: T4, t5: T5, t6: T6|
                cloned(handler, f) ==> #[trigger] call_requires(f, (t1, t2, t3, t4, t5, t6))
        }) ==> (
            <F as MessageHandler<S, (private::Async, M, T1, T2, T3, T4, T5, T6)>>::ready(&handler)
        ),
        (
            <F as MessageHandler<
                S,
                (private::Async, M, T1, T2, T3, T4, T5, T6),
            >>::handles(&handler, s, v, p, ack_id, output)
        ) && output is Some ==> ({
            exists|f: F, t1: T1, t2: T2, t3: T3, t4: T4, t5: T5, t6: T6|
                {
                    &&& cloned(handler, f)
                    &&& #[trigger] call_ensures(f, (t1, t2, t3, t4, t5, t6), output->0)
                    &&& <_ as FromMessage<S, Via6<M>>>::extracts(
                        s,
                        v,
                        p,
                        ack_id,
                        Ok(
                            Args(t1, Args(t2, Args(t3, Args(t4, Args(t5, t6))))),
                        ),
                    )
                }
        }),
        (
            <F as MessageHandler<
                S,
                (private::Async, M, T1, T2, T3, T4, T5, T6),
            >>::handles(&handler, s, v, p, ack_id, output)
        ) && output is None ==> ({
            exists|extracted: Extracted<S, Via6<M>, Args6<T1, T2, T3, T4, T5, T6>>|
                {
                    &&& extracted is Err
                    &&& #[trigger] <_ as FromMessage<S, Via6<M>>>::extracts(
                        s,
                        v,
                        p,
                        ack_id,
                        extracted,
                    )
                }
        }),
{
}

/// A sync handler with 7 arguments may be called if its copies may be called with whatever
/// is extracted. What comes out is what a copy of it returned for arguments that were
/// extracted from the message, and nothing comes out only if they could not be.
pub proof fn law_sync_handler_7<S, M, F, T1, T2, T3, T4, T5, T6, T7>(
    handler: F,
    s: S,
    v: Value,
    p: Vec<Vec<u8>>,
    ack_id: Option<i64>,
    output: Option<()>,
) where
    F: FnOnce(T1, T2, T3, T4, T5, T6, T7) + Send + Sync + Clone + 'static,
    T1: FromMessageParts<S> + Send,
    T2: FromMessageParts<S> + Send,
    T3: FromMessageParts<S> + Send,
    T4: FromMessageParts<S> + Send,
    T5: FromMessageParts<S> + Send,
    T6: FromMessageParts<S> + Send,
    T7: FromMessage<S, M> + Send,

    ensures
        ({
            forall|f: F, t1: T1, t2: T2, t3: T3, t4: T4, t5: T5, t6: T6, t7: T7|
                cloned(handler, f) ==> #[trigger] call_requires(f, (t1, t2, t3, t4, t5, t6, t7))
        }) ==> (
            <F as MessageHandler<
                S,
                (private::Sync, M, T1, T2, T3, T4, T5, T6, T7),
            >>::ready(&handler)
        ),
        (
            <F as MessageHandler<
                S,
                (private::Sync, M, T1, T2, T3, T4, T5, T6, T7),
            >>::handles(&handler, s, v, p, ack_id, output)
        ) && output is Some ==> ({
            exists|f: F, t1: T1, t2: T2, t3: T3, t4: T4, t5: T5, t6: T6, t7: T7|
                {
                    &&& cloned(handler, f)
                    &&& #[trigger] call_ensures(f, (t1, t2, t3, t4, t5, t6, t7), output->0)
                    &&& <_ as FromMessage<S, Via7<M>>>::extracts(
                        s,
                        v,
                        p,
                        ack_id,
                        Ok(
                            Args(t1, Args(t2, Args(t3, Args(t4, Args(t5, Args(t6, t7)))))),
                        ),
                    )
                }
        }),
        (
            <F as MessageHandler<
                S,
                (private::Sync, M, T1, T2, T3, T4, T5, T6, T7),
            >>::handles(&handler, s, v, p, ack_id, output)
        ) && output is None ==> ({
            exists|extracted: Extracted<S, Via7<M>, Args7<T1, T2, T3, T4, T5, T6, T7>>|
                {
                    &&& extracted is Err
                    &&& #[trigger] <_ as FromMessage<S, Via7<M>>>::extracts(
                        s,
                        v,
                        p,
                        ack_id,
                        extracted,
                    )
                }
        }),
{
}

/// An async handler with 7 arguments may be called if its copies may be called with whatever
/// is extracted. What comes out is what a copy of it returned for arguments that were
/// extracted from the message, and nothing comes out only if they could not be.
pub proof fn law_async_handler_7<S, M, F, Fut, T1, T2, T3, T4, T5, T6, T7>(
    handler: F,
    s: S,
    v: Value,
    p: Vec<Vec<u8>>,
    ack_id: Option<i64>,
    output: Option<Fut>,
) where
    F: FnOnce(T1, T2, T3, T4, T5, T6, T7) -> Fut + Send + Sync + Clone + 'static,
    Fut: Future<Output = ()> + Send + 'static,
    T1: FromMessageParts<S> + Send,
    T2: FromMessageParts<S> + Send,
    T3: FromMessageParts<S> + Send,
    T4: FromMessageParts<S> + Send,
    T5: FromMessageParts<S> + Send,
    T6: FromMessageParts<S> + Send,
    T7: FromMessage<S, M> + Send,

    ensures
        ({
            forall|f: F, t1: T1, t2: T2, t3: T3, t4: T4, t5: T5, t6: T6, t7: T7|
                cloned(handler, f) ==> #[trigger] call_requires(f, (t1, t2, t3, t4, t5, t6, t7))
        }) ==> (
            <F as MessageHandler<
                S,
                (private::Async, M, T1, T2, T3, T4, T5, T6, T7),
            >>::ready(&handler)
        ),
        (
            <F as MessageHandler<
                S,
                (private::Async, M, T1, T2, T3, T4, T5, T6, T7),
            >>::handles(&handler, s, v, p, ack_id, output)
        ) && output is Some ==> ({
            exists|f: F, t1: T1, t2: T2, t3: T3, t4: T4, t5: T5, t6: T6, t7: T7|
                {
                    &&& cloned(handler, f)
                    &&& #[trigger] call_ensures(f, (t1, t2, t3, t4, t5, t6, t7), output->0)
                    &&& <_ as FromMessage<S, Via7<M>>>::extracts(
                        s,
                        v,
                        p,
                        ack_id,
                        Ok(
                            Args(t1, Args(t2, Args(t3, Args(t4, Args(t5, Args(t6, t7)))))),
                        ),
                    )
                }
        }),
        (
            <F as MessageHandler<
                S,
                (private::Async, M, T1, T2, T3, T4, T5, T6, T7),
            >>::handles(&handler, s, v, p, ack_id, output)
        ) && output is None ==> ({
            exists|extracted: Extracted<S, Via7<M>, Args7<T1, T2, T3, T4, T5, T6, T7>>|
                {
                    &&& extracted is Err
                    &&& #[trigger] <_ as FromMessage<S, Via7<M>>>::extracts(
                        s,
                        v,
                        p,
                        ack_id,
                        extracted,
                    )
                }
        }),
{
}

/// A sync handler with 8 arguments may be called if its copies may be called with whatever
/// is extracted. What comes out is what a copy of it returned for arguments that were
/// extracted from the message, and nothing comes out only if they could not be.
pub proof fn law_sync_handler_8<S, M, F, T1, T2, T3, T4, T5, T6, T7, T8>(
    handler: F,
    s: S,
    v: Value,
    p: Vec<Vec<u8>>,
    ack_id: Option<i64>,
    output: Option<()>,
) where
    F: FnOnce(T1, T2, T3, T4, T5, T6, T7, T8) + Send + Sync + Clone + 'static,
    T1: FromMessageParts<S> + Send,
    T2: FromMessageParts<S> + Send,
    T3: FromMessageParts<S> + Send,
    T4: FromMessageParts<S> + Send,
    T5: FromMessageParts<S> + Send,
    T6: FromMessageParts<S> + Send,
    T7: FromMessageParts<S> + Send,
    T8: FromMessage<S, M> + Send,

    ensures
        ({
            forall|f: F, t1: T1, t2: T2, t3: T3, t4: T4, t5: T5, t6: T6, t7: T7, t8: T8|
                cloned(handler, f) ==> #[trigger] call_requires(
                    f, (t1, t2, t3, t4, t5, t6, t7, t8),
                )
        }) ==> (
            <F as MessageHandler<
                S,
                (private::Sync, M, T1, T2, T3, T4, T5, T6, T7, T8),
            >>::ready(&handler)
        ),
        (
            <F as MessageHandler<
                S,
                (private::Sync, M, T1, T2, T3, T4, T5, T6, T7, T8),
            >>::handles(&handler, s, v, p, ack_id, output)
        ) && output is Some ==> ({
            exists|f: F, t1: T1, t2: T2, t3: T3, t4: T4, t5: T5, t6: T6, t7: T7, t8: T8|
                {
                    &&& cloned(handler, f)
                    &&& #[trigger] call_ensures(f, (t1, t2, t3, t4, t5, t6, t7, t8), output->0)
                    &&& <_ as FromMessage<S, Via8<M>>>::extracts(
                        s,
                        v,
                        p,
                        ack_id,
                        Ok(
                            Args(t1, Args(t2, Args(t3, Args(t4, Args(t5, Args(t6, Args(t7,
                            t8))))))),
                        ),
                    )
                }
        }),
        (
            <F as MessageHandler<
                S,
                (private::Sync, M, T1, T2, T3, T4, T5, T6, T7, T8),
            >>::handles(&handler, s, v, p, ack_id, output)
        ) && output is None ==> ({
            exists|extracted: Extracted<S, Via8<M>, Args8<T1, T2, T3, T4, T5, T6, T7, T8>>|
                {
                    &&& extracted is Err
                    &&& #[trigger] <_ as FromMessage<S, Via8<M>>>::extracts(
                        s,
                        v,
                        p,
                        ack_id,
                        extracted,
                    )
                }
        }),
{
}

/// An async handler with 8 arguments may be called if its copies may be called with whatever
/// is extracted. What comes out is what a copy of it returned for arguments that were
/// extracted from the message, and nothing comes out only if they could not be.
pub proof fn law_async_handler_8<S, M, F, Fut, T1, T2, T3, T4, T5, T6, T7, T8>(
    handler: F,
    s: S,
    v: Value,
    p: Vec<Vec<u8>>,
    ack_id: Option<i64>,
    output: Option<Fut>,
) where
    F: FnOnce(T1, T2, T3, T4, T5, T6, T7, T8) -> Fut + Send + Sync + Clone + 'static,
    Fut: Future<Output = ()> + Send + 'static,
    T1: FromMessageParts<S> + Send,
    T2: FromMessageParts<S> + Send,
    T3: FromMessageParts<S> + Send,
    T4: FromMessageParts<S> + Send,
    T5: FromMessageParts<S> + Send,
    T6: FromMessageParts<S> + Send,
    T7: FromMessageParts<S> + Send,
    T8: FromMessage<S, M> + Send,

    ensures
        ({
            forall|f: F, t1: T1, t2: T2, t3: T3, t4: T4, t5: T5, t6: T6, t7: T7, t8: T8|
                cloned(handler, f) ==> #[trigger] call_requires(
                    f, (t1, t2, t3, t4, t5, t6, t7, t8),
                )
        }) ==> (
            <F as MessageHandler<
                S,
                (private::Async, M, T1, T2, T3, T4, T5, T6, T7, T8),
            >>::ready(&handler)
        ),
        (
            <F as MessageHandler<
                S,
                (private::Async, M, T1, T2, T3, T4, T5, T6, T7, T8),
            >>::handles(&handler, s, v, p, ack_id, output)
        ) && output is Some ==> ({
            exists|f: F, t1: T1, t2: T2, t3: T3, t4: T4, t5: T5, t6: T6, t7: T7, t8: T8|
                {
                    &&& cloned(handler, f)
                    &&& #[trigger] call_ensures(f, (t1, t2, t3, t4, t5, t6, t7, t8), output->0)
                    &&& <_ as FromMessage<S, Via8<M>>>::extracts(
                        s,
                        v,
                        p,
                        ack_id,
                        Ok(
                            Args(t1, Args(t2, Args(t3, Args(t4, Args(t5, Args(t6, Args(t7,
                            t8))))))),
                        ),
                    )
                }
        }),
        (
            <F as MessageHandler<
                S,
                (private::Async, M, T1, T2, T3, T4, T5, T6, T7, T8),
            >>::handles(&handler, s, v, p, ack_id, output)
        ) && output is None ==> ({
            exists|extracted: Extracted<S, Via8<M>, Args8<T1, T2, T3, T4, T5, T6, T7, T8>>|
                {
                    &&& extracted is Err
                    &&& #[trigger] <_ as FromMessage<S, Via8<M>>>::extracts(
                        s,
                        v,
                        p,
                        ack_id,
                        extracted,
                    )
                }
        }),
{
}

/// A sync handler with 9 arguments may be called if its copies may be called with whatever
/// is extracted. What comes out is what a copy of it returned for arguments that were
/// extracted from the message, and nothing comes out only if they could not be.
pub proof fn law_sync_handler_9<S, M, F, T1, T2, T3, T4, T5, T6, T7, T8, T9>(
    handler: F,
    s: S,
    v: Value,
    p: Vec<Vec<u8>>,
    ack_id: Option<i64>,
    output: Option<()>,
) where
    F: FnOnce(T1, T2, T3, T4, T5, T6, T7, T8, T9) + Send + Sync + Clone + 'static,
    T1: FromMessageParts<S> + Send,
    T2: FromMessageParts<S> + Send,
    T3: FromMessageParts<S> + Send,
    T4: FromMessageParts<S> + Send,
    T5: FromMessageParts<S> + Send,
    T6: FromMessageParts<S> + Send,
    T7: FromMessageParts<S> + Send,
    T8: FromMessageParts<S> + Send,
    T9: FromMessage<S, M> + Send,

    ensures
        ({
            forall|f: F, t1: T1, t2: T2, t3: T3, t4: T4, t5: T5, t6: T6, t7: T7, t8: T8, t9: T9|
                cloned(handler, f) ==> #[trigger] call_requires(
                    f, (t1, t2, t3, t4, t5, t6, t7, t8, t9),
                )
        }) ==> (
            <F as MessageHandler<
                S,
                (private::Sync, M, T1, T2, T3, T4, T5, T6, T7, T8, T9),
            >>::ready(&handler)
        ),
        (
            <F as MessageHandler<
                S,
                (private::Sync, M, T1, T2, T3, T4, T5, T6, T7, T8, T9),
            >>::handles(&handler, s, v, p, ack_id, output)
        ) && output is Some ==> ({
            exists|f: F, t1: T1, t2: T2, t3: T3, t4: T4, t5: T5, t6: T6, t7: T7, t8: T8, t9: T9|
                {
                    &&& cloned(handler, f)
                    &&& #[trigger] call_ensures(
                        f, (t1, t2, t3, t4, t5, t6, t7, t8, t9), output->0,
                    )
                    &&& <_ as FromMessage<S, Via9<M>>>::extracts(
                        s,
                        v,
                        p,
                        ack_id,
                        Ok(
                            Args(t1, Args(t2, Args(t3, Args(t4, Args(t5, Args(t6, Args(t7,
                            Args(t8, t9)))))))),
                        ),
                    )
                }
        }),
        (
            <F as MessageHandler<
                S,
                (private::Sync, M, T1, T2, T3, T4, T5, T6, T7, T8, T9),
            >>::handles(&handler, s, v, p, ack_id, output)
        ) && output is None ==> ({
            exists|extracted: Extracted<S, Via9<M>, Args9<T1, T2, T3, T4, T5, T6, T7, T8, T9>>|
                {
                    &&& extracted is Err
                    &&& #[trigger] <_ as FromMessage<S, Via9<M>>>::extracts(
                        s,
                        v,
                        p,
                        ack_id,
                        extracted,
                    )
                }
        }),
{
}

/// An async handler with 9 arguments may be called if its copies may be called with whatever
/// is extracted. What comes out is what a copy of it returned for arguments that were
/// extracted from the message, and nothing comes out only if they could not be.
pub proof fn law_async_handler_9<S, M, F, Fut, T1, T2, T3, T4, T5, T6, T7, T8, T9>(
    handler: F,
    s: S,
    v: Value,
    p: Vec<Vec<u8>>,
    ack_id: Option<i64>,
    output: Option<Fut>,
) where
    F: FnOnce(T1, T2, T3, T4, T5, T6, T7, T8, T9) -> Fut + Send + Sync + Clone + 'static,
    Fut: Future<Output = ()> + Send + 'static,
    T1: FromMessageParts<S> + Send,
    T2: FromMessageParts<S> + Send,
    T3: FromMessageParts<S> + Send,
    T4: FromMessageParts<S> + Send,
    T5: FromMessageParts<S> + Send,
    T6: FromMessageParts<S> + Send,
    T7: FromMessageParts<S> + Send,
    T8: FromMessageParts<S> + Send,
    T9: FromMessage<S, M> + Send,

    ensures
        ({
            forall|f: F, t1: T1, t2: T2, t3: T3, t4: T4, t5: T5, t6: T6, t7: T7, t8: T8, t9: T9|
                cloned(handler, f) ==> #[trigger] call_requires(
                    f, (t1, t2, t3, t4, t5, t6, t7, t8, t9),
                )
        }) ==> (
            <F as MessageHandler<
                S,
                (private::Async, M, T1, T2, T3, T4, T5, T6, T7, T8, T9),
            >>::ready(&handler)
        ),
        (
            <F as MessageHandler<
                S,
                (private::Async, M, T1, T2, T3, T4, T5, T6, T7, T8, T9),
            >>::handles(&handler, s, v, p, ack_id, output)
        ) && output is Some ==> ({
            exists|f: F, t1: T1, t2: T2, t3: T3, t4: T4, t5: T5, t6: T6, t7: T7, t8: T8, t9: T9|
                {
                    &&& cloned(handler, f)
                    &&& #[trigger] call_ensures(
                        f, (t1, t2, t3, t4, t5, t6, t7, t8, t9), output->0,
                    )
                    &&& <_ as FromMessage<S, Via9<M>>>::extracts(
                        s,
                        v,
                        p,
                        ack_id,
                        Ok(
                            Args(t1, Args(t2, Args(t3, Args(t4, Args(t5, Args(t6, Args(t7,
                            Args(t8, t9)))))))),
                        ),
                    )
                }
        }),
        (
            <F as MessageHandler<
                S,
                (private::Async, M, T1, T2, T3, T4, T5, T6, T7, T8, T9),
            >>::handles(&handler, s, v, p, ack_id, output)
        ) && output is None ==> ({
            exists|extracted: Extracted<S, Via9<M>, Args9<T1, T2, T3, T4, T5, T6, T7, T8, T9>>|
                {
                    &&& extracted is Err
                    &&& #[trigger] <_ as FromMessage<S, Via9<M>>>::extracts(
                        s,
                        v,
                        p,
                        ack_id,
                        extracted,
                    )
                }
        }),
{
}

/// A sync handler with 10 arguments may be called if its copies may be called with whatever
/// is extracted. What comes out is what a copy of it returned for arguments that were
/// extracted from the message, and nothing comes out only if they could not be.
pub proof fn law_sync_handler_10<S, M, F, T1, T2, T3, T4, T5, T6, T7, T8, T9, T10>(
    handler: F,
    s: S,
    v: Value,
    p: Vec<Vec<u8>>,
    ack_id: Option<i64>,
    output: Option<()>,
) where
    F: FnOnce(T1, T2, T3, T4, T5, T6, T7, T8, T9, T10) + Send + Sync + Clone + 'static,
    T1: FromMessageParts<S> + Send,
    T2: FromMessageParts<S> + Send,
    T3: FromMessageParts<S> + Send,
    T4: FromMessageParts<S> + Send,
    T5: FromMessageParts<S> + Send,
    T6: FromMessageParts<S> + Send,
    T7: FromMessageParts<S> + Send,
    T8: FromMessageParts<S> + Send,
    T9: FromMessageParts<S> + Send,
    T10: FromMessage<S, M> + Send,

    ensures
        ({
            forall|
                f: F, t1: T1, t2: T2, t3: T3, t4: T4, t5: T5, t6: T6, t7: T7, t8: T8, t9: T9,
                t10: T10,
            |
                cloned(handler, f) ==> #[trigger] call_requires(
                    f, (t1, t2, t3, t4, t5, t6, t7, t8, t9, t10),
                )
        }) ==> (
            <F as MessageHandler<
                S,
                (private::Sync, M, T1, T2, T3, T4, T5, T6, T7, T8, T9, T10),
            >>::ready(&handler)
        ),
        (
            <F as MessageHandler<
                S,
                (private::Sync, M, T1, T2, T3, T4, T5, T6, T7, T8, T9, T10),
            >>::handles(&handler, s, v, p, ack_id, output)
        ) && output is Some ==> ({
            exists|
                f: F, t1: T1, t2: T2, t3: T3, t4: T4, t5: T5, t6: T6, t7: T7, t8: T8, t9: T9,
                t10: T10,
            |
                {
                    &&& cloned(handler, f)
                    &&& #[trigger] call_ensures(
                        f, (t1, t2, t3, t4, t5, t6, t7, t8, t9, t10), output->0,
                    )
                    &&& <_ as FromMessage<S, Via10<M>>>::extracts(
                        s,
                        v,
                        p,
                        ack_id,
                        Ok(
                            Args(t1, Args(t2, Args(t3, Args(t4, Args(t5, Args(t6, Args(t7,
                            Args(t8, Args(t9, t10))))))))),
                        ),
                    )
                }
        }),
        (
            <F as MessageHandler<
                S,
                (private::Sync, M, T1, T2, T3, T4, T5, T6, T7, T8, T9, T10),
            >>::handles(&handler, s, v, p, ack_id, output)
        ) && output is None ==> ({
            exists|extracted: Extracted<
                S, Via10<M>, Args10<T1, T2, T3, T4, T5, T6, T7, T8, T9, T10>,
            >|
                {
                    &&& extracted is Err
                    &&& #[trigger] <_ as FromMessage<S, Via10<M>>>::extracts(
                        s,
                        v,
                        p,
                        ack_id,
                        extracted,
                    )
                }
        }),
{
}

/// An async handler with 10 arguments may be called if its copies may be called with whatever
/// is extracted. What comes out is what a copy of it returned for arguments that were
/// extracted from the message, and nothing comes out only if they could not be.
pub proof fn law_async_handler_10<S, M, F, Fut, T1, T2, T3, T4, T5, T6, T7, T8, T9, T10>(
    handler: F,
    s: S,
    v: Value,
    p: Vec<Vec<u8>>,
    ack_id: Option<i64>,
    output: Option<Fut>,
) where
    F: FnOnce(T1, T2, T3, T4, T5, T6, T7, T8, T9, T10) -> Fut + Send + Sync + Clone + 'static,
    Fut: Future<Output = ()> + Send + 'static,
    T1: FromMessageParts<S> + Send,
    T2: FromMessageParts<S> + Send,
    T3: FromMessageParts<S> + Send,
    T4: FromMessageParts<S> + Send,
    T5: FromMessageParts<S> + Send,
    T6: FromMessageParts<S> + Send,
    T7: FromMessageParts<S> + Send,
    T8: FromMessageParts<S> + Send,
    T9: FromMessageParts<S> + Send,
    T10: FromMessage<S, M> + Send,

    ensures
        ({
            forall|
                f: F, t1: T1, t2: T2, t3: T3, t4: T4, t5: T5, t6: T6, t7: T7, t8: T8, t9: T9,
                t10: T10,
            |
                cloned(handler, f) ==> #[trigger] call_requires(
                    f, (t1, t2, t3, t4, t5, t6, t7, t8, t9, t10),
                )
        }) ==> (
            <F as MessageHandler<
                S,
                (private::Async, M, T1, T2, T3, T4, T5, T6, T7, T8, T9, T10),
            >>::ready(&handler)
        ),
        (
            <F as MessageHandler<
                S,
                (private::Async, M, T1, T2, T3, T4, T5, T6, T7, T8, T9, T10),
            >>::handles(&handler, s, v, p, ack_id, output)
        ) && output is Some ==> ({
            exists|
                f: F, t1: T1, t2: T2, t3: T3, t4: T4, t5: T5, t6: T6, t7: T7, t8: T8, t9: T9,
                t10: T10,
            |
                {
                    &&& cloned(handler, f)
                    &&& #[trigger] call_ensures(
                        f, (t1, t2, t3, t4, t5, t6, t7, t8, t9, t10), output->0,
                    )
                    &&& <_ as FromMessage<S, Via10<M>>>::extracts(
                        s,
                        v,
                        p,
                        ack_id,
                        Ok(
                            Args(t1, Args(t2, Args(t3, Args(t4, Args(t5, Args(t6, Args(t7,
                            Args(t8, Args(t9, t10))))))))),
                        ),
                    )
                }
        }),
        (
            <F as MessageHandler<
                S,
                (private::Async, M, T1, T2, T3, T4, T5, T6, T7, T8, T9, T10),
            >>::handles(&handler, s, v, p, ack_id, output)
        ) && output is None ==> ({
            exists|extracted: Extracted<
                S, Via10<M>, Args10<T1, T2, T3, T4, T5, T6, T7, T8, T9, T10>,
            >|
                {
                    &&& extracted is Err
                    &&& #[trigger] <_ as FromMessage<S, Via10<M>>>::extracts(
                        s,
                        v,
                        p,
                        ack_id,
                        extracted,
                    )
                }
        }),
{
}

/// A sync handler with 11 arguments may be called if its copies may be called with whatever
/// is extracted. What comes out is what a copy of it returned for arguments that were
/// extracted from the message, and nothing comes out only if they could not be.
pub proof fn law_sync_handler_11<S, M, F, T1, T2, T3, T4, T5, T6, T7, T8, T9, T10, T11>(
    handler: F,
    s: S,
    v: Value,
    p: Vec<Vec<u8>>,
    ack_id: Option<i64>,
    output: Option<()>,
) where
    F: FnOnce(T1, T2, T3, T4, T5, T6, T7, T8, T9, T10, T11) + Send + Sync + Clone + 'static,
    T1: FromMessageParts<S> + Send,
    T2: FromMessageParts<S> + Send,
    T3: FromMessageParts<S> + Send,
    T4: FromMessageParts<S> + Send,
    T5: FromMessageParts<S> + Send,
    T6: FromMessageParts<S> + Send,
    T7: FromMessageParts<S> + Send,
    T8: FromMessageParts<S> + Send,
    T9: FromMessageParts<S> + Send,
    T10: FromMessageParts<S> + Send,
    T11: FromMessage<S, M> + Send,

    ensures
        ({
            forall|
                f: F, t1: T1, t2: T2, t3: T3, t4: T4, t5: T5, t6: T6, t7: T7, t8: T8, t9: T9,
                t10: T10, t11: T11,
            |
                cloned(handler, f) ==> #[trigger] call_requires(
                    f, (t1, t2, t3, t4, t5, t6, t7, t8, t9, t10, t11),
                )
        }) ==> (
            <F as MessageHandler<
                S,
                (private::Sync, M, T1, T2, T3, T4, T5, T6, T7, T8, T9, T10, T11),
            >>::ready(&handler)
        ),
        (
            <F as MessageHandler<
                S,
                (private::Sync, M, T1, T2, T3, T4, T5, T6, T7, T8, T9, T10, T11),
            >>::handles(&handler, s, v, p, ack_id, output)
        ) && output is Some ==> ({
            exists|
                f: F, t1: T1, t2: T2, t3: T3, t4: T4, t5: T5, t6: T6, t7: T7, t8: T8, t9: T9,
                t10: T10, t11: T11,
            |
                {
                    &&& cloned(handler, f)
                    &&& #[trigger] call_ensures(
                        f, (t1, t2, t3, t4, t5, t6, t7, t8, t9, t10, t11), output->0,
                    )
                    &&& <_ as FromMessage<S, Via11<M>>>::extracts(
                        s,
                        v,
                        p,
                        ack_id,
                        Ok(
                            Args(t1, Args(t2, Args(t3, Args(t4, Args(t5, Args(t6, Args(t7,
                            Args(t8, Args(t9, Args(t10, t11)))))))))),
                        ),
                    )
                }
        }),
        (
            <F as MessageHandler<
                S,
                (private::Sync, M, T1, T2, T3, T4, T5, T6, T7, T8, T9, T10, T11),
            >>::handles(&handler, s, v, p, ack_id, output)
        ) && output is None ==> ({
            exists|extracted: Extracted<
                S, Via11<M>, Args11<T1, T2, T3, T4, T5, T6, T7, T8, T9, T10, T11>,
            >|
                {
                    &&& extracted is Err
                    &&& #[trigger] <_ as FromMessage<S, Via11<M>>>::extracts(
                        s,
                        v,
                        p,
                        ack_id,
                        extracted,
                    )
                }
        }),
{
}

/// An async handler with 11 arguments may be called if its copies may be called with whatever
/// is extracted. What comes out is what a copy of it returned for arguments that were
/// extracted from the message, and nothing comes out only if they could not be.
pub proof fn law_async_handler_11<S, M, F, Fut, T1, T2, T3, T4, T5, T6, T7, T8, T9, T10, T11>(
    handler: F,
    s: S,
    v: Value,
    p: Vec<Vec<u8>>,
    ack_id: Option<i64>,
    output: Option<Fut>,
) where
    F: FnOnce(
        T1, T2, T3, T4, T5, T6, T7, T8, T9, T10, T11,
    ) -> Fut + Send + Sync + Clone + 'static,
    Fut: Future<Output = ()> + Send + 'static,
    T1: FromMessageParts<S> + Send,
    T2: FromMessageParts<S> + Send,
    T3: FromMessageParts<S> + Send,
    T4: FromMessageParts<S> + Send,
    T5: FromMessageParts<S> + Send,
    T6: FromMessageParts<S> + Send,
    T7: FromMessageParts<S> + Send,
    T8: FromMessageParts<S> + Send,
    T9: FromMessageParts<S> + Send,
    T10: FromMessageParts<S> + Send,
    T11: FromMessage<S, M> + Send,

    ensures
        ({
            forall|
                f: F, t1: T1, t2: T2, t3: T3, t4: T4, t5: T5, t6: T6, t7: T7, t8: T8, t9: T9,
                t10: T10, t11: T11,
            |
                cloned(handler, f) ==> #[trigger] call_requires(
                    f, (t1, t2, t3, t4, t5, t6, t7, t8, t9, t10, t11),
                )
        }) ==> (
            <F as MessageHandler<
                S,
                (private::Async, M, T1, T2, T3, T4, T5, T6, T7, T8, T9, T10, T11),
            >>::ready(&handler)
        ),
        (
            <F as MessageHandler<
                S,
                (private::Async, M, T1, T2, T3, T4, T5, T6, T7, T8, T9, T10, T11),
            >>::handles(&handler, s, v, p, ack_id, output)
        ) && output is Some ==> ({
            exists|
                f: F, t1: T1, t2: T2, t3: T3, t4: T4, t5: T5, t6: T6, t7: T7, t8: T8, t9: T9,
                t10: T10, t11: T11,
            |
                {
                    &&& cloned(handler, f)
                    &&& #[trigger] call_ensures(
                        f, (t1, t2, t3, t4, t5, t6, t7, t8, t9, t10, t11), output->0,
                    )
                    &&& <_ as FromMessage<S, Via11<M>>>::extracts(
                        s,
                        v,
                        p,
                        ack_id,
                        Ok(
                            Args(t1, Args(t2, Args(t3, Args(t4, Args(t5, Args(t6, Args(t7,
                            Args(t8, Args(t9, Args(t10, t11)))))))))),
                        ),
                    )
                }
        }),
        (
            <F as MessageHandler<
                S,
                (private::Async, M, T1, T2, T3, T4, T5, T6, T7, T8, T9, T10, T11),
            >>::handles(&handler, s, v, p, ack_id, output)
        ) && output is None ==> ({
            exists|extracted: Extracted<
                S, Via11<M>, Args11<T1, T2, T3, T4, T5, T6, T7, T8, T9, T10, T11>,
            >|
                {
                    &&& extracted is Err
                    &&& #[trigger] <_ as FromMessage<S, Via11<M>>>::extracts(
                        s,
                        v,
                        p,
                        ack_id,
                        extracted,
                    )
                }
        }),
{
}

/// A sync handler with 12 arguments may be called if its copies may be called with whatever
/// is extracted. What comes out is what a copy of it returned for arguments that were
/// extracted from the message, and nothing comes out only if they could not be.
pub proof fn law_sync_handler_12<S, M, F, T1, T2, T3, T4, T5, T6, T7, T8, T9, T10, T11, T12>(
    handler: F,
    s: S,
    v: Value,
    p: Vec<Vec<u8>>,
    ack_id: Option<i64>,
    output: Option<()>,
) where
    F: FnOnce(T1, T2, T3, T4, T5, T6, T7, T8, T9, T10, T11, T12) + Send + Sync + Clone + 'static,
    T1: FromMessageParts<S> + Send,
    T2: FromMessageParts<S> + Send,
    T3: FromMessageParts<S> + Send,
    T4: FromMessageParts<S> + Send,
    T5: FromMessageParts<S> + Send,
    T6: FromMessageParts<S> + Send,
    T7: FromMessageParts<S> + Send,
    T8: FromMessageParts<S> + Send,
    T9: FromMessageParts<S> + Send,
    T10: FromMessageParts<S> + Send,
    T11: FromMessageParts<S> + Send,
    T12: FromMessage<S, M> + Send,

    ensures
        ({
            forall|
                f: F, t1: T1, t2: T2, t3: T3, t4: T4, t5: T5, t6: T6, t7: T7, t8: T8, t9: T9,
                t10: T10, t11: T11, t12: T12,
            |
                cloned(handler, f) ==> #[trigger] call_requires(
                    f, (t1, t2, t3, t4, t5, t6, t7, t8, t9, t10, t11, t12),
                )
        }) ==> (
            <F as MessageHandler<
                S,
                (private::Sync, M, T1, T2, T3, T4, T5, T6, T7, T8, T9, T10, T11, T12),
            >>::ready(&handler)
        ),
        (
            <F as MessageHandler<
                S,
                (private::Sync, M, T1, T2, T3, T4, T5, T6, T7, T8, T9, T10, T11, T12),
            >>::handles(&handler, s, v, p, ack_id, output)
        ) && output is Some ==> ({
            exists|
                f: F, t1: T1, t2: T2, t3: T3, t4: T4, t5: T5, t6: T6, t7: T7, t8: T8, t9: T9,
                t10: T10, t11: T11, t12: T12,
            |
                {
                    &&& cloned(handler, f)
                    &&& #[trigger] call_ensures(
                        f, (t1, t2, t3, t4, t5, t6, t7, t8, t9, t10, t11, t12), output->0,
                    )
                    &&& <_ as FromMessage<S, Via12<M>>>::extracts(
                        s,
                        v,
                        p,
                        ack_id,
                        Ok(
                            Args(t1, Args(t2, Args(t3, Args(t4, Args(t5, Args(t6, Args(t7,
                            Args(t8, Args(t9, Args(t10, Args(t11, t12))))))))))),
                        ),
                    )
                }
        }),
        (
            <F as MessageHandler<
                S,
                (private::Sync, M, T1, T2, T3, T4, T5, T6, T7, T8, T9, T10, T11, T12),
            >>::handles(&handler, s, v, p, ack_id, output)
        ) && output is None ==> ({
            exists|extracted: Extracted<
                S, Via12<M>, Args12<T1, T2, T3, T4, T5, T6, T7, T8, T9, T10, T11, T12>,
            >|
                {
                    &&& extracted is Err
                    &&& #[trigger] <_ as FromMessage<S, Via12<M>>>::extracts(
                        s,
                        v,
                        p,
                        ack_id,
                        extracted,
                    )
                }
        }),
{
}

/// An async handler with 12 arguments may be called if its copies may be called with whatever
/// is extracted. What comes out is what a copy of it returned for arguments that were
/// extracted from the message, and nothing comes out only if they could not be.
pub proof fn law_async_handler_12<S, M, F, Fut, T1, T2, T3, T4, T5, T6, T7, T8, T9, T10, T11, T12>(
    handler: F,
    s: S,
    v: Value,
    p: Vec<Vec<u8>>,
    ack_id: Option<i64>,
    output: Option<Fut>,
) where
    F: FnOnce(
        T1, T2, T3, T4, T5, T6, T7, T8, T9, T10, T11, T12,
    ) -> Fut + Send + Sync + Clone + 'static,
    Fut: Future<Output = ()> + Send + 'static,
    T1: FromMessageParts<S> + Send,
    T2: FromMessageParts<S> + Send,
    T3: FromMessageParts<S> + Send,
    T4: FromMessageParts<S> + Send,
    T5: FromMessageParts<S> + Send,
    T6: FromMessageParts<S> + Send,
    T7: FromMessageParts<S> + Send,
    T8: FromMessageParts<S> + Send,
    T9: FromMessageParts<S> + Send,
    T10: FromMessageParts<S> + Send,
    T11: FromMessageParts<S> + Send,
    T12: FromMessage<S, M> + Send,

    ensures
        ({
            forall|
                f: F, t1: T1, t2: T2, t3: T3, t4: T4, t5: T5, t6: T6, t7: T7, t8: T8, t9: T9,
                t10: T10, t11: T11, t12: T12,
            |
                cloned(handler, f) ==> #[trigger] call_requires(
                    f, (t1, t2, t3, t4, t5, t6, t7, t8, t9, t10, t11, t12),
                )
        }) ==> (
            <F as MessageHandler<
                S,
                (private::Async, M, T1, T2, T3, T4, T5, T6, T7, T8, T9, T10, T11, T12),
            >>::ready(&handler)
        ),
        (
            <F as MessageHandler<
                S,
                (private::Async, M, T1, T2, T3, T4, T5, T6, T7, T8, T9, T10, T11, T12),
            >>::handles(&handler, s, v, p, ack_id, output)
        ) && output is Some ==> ({
            exists|
                f: F, t1: T1, t2: T2, t3: T3, t4: T4, t5: T5, t6: T6, t7: T7, t8: T8, t9: T9,
                t10: T10, t11: T11, t12: T12,
            |
                {
                    &&& cloned(handler, f)
                    &&& #[trigger] call_ensures(
                        f, (t1, t2, t3, t4, t5, t6, t7, t8, t9, t10, t11, t12), output->0,
                    )
                    &&& <_ as FromMessage<S, Via12<M>>>::extracts(
                        s,
                        v,
                        p,
                        ack_id,
                        Ok(
                            Args(t1, Args(t2, Args(t3, Args(t4, Args(t5, Args(t6, Args(t7,
                            Args(t8, Args(t9, Args(t10, Args(t11, t12))))))))))),
                        ),
                    )
                }
        }),
        (
            <F as MessageHandler<
                S,
                (private::Async, M, T1, T2, T3, T4, T5, T6, T7, T8, T9, T10, T11, T12),
            >>::handles(&handler, s, v, p, ack_id, output)
        ) && output is None ==> ({
            exists|extracted: Extracted<
                S, Via12<M>, Args12<T1, T2, T3, T4, T5, T6, T7, T8, T9, T10, T11, T12>,
            >|
                {
                    &&& extracted is Err
                    &&& #[trigger] <_ as FromMessage<S, Via12<M>>>::extracts(
                        s,
                        v,
                        p,
                        ack_id,
                        extracted,
                    )
                }
        }),
{
}

/// A sync handler with 13 arguments may be called if its copies may be called with whatever
/// is extracted. What comes out is what a copy of it returned for arguments that were
/// extracted from the message, and nothing comes out only if they could not be.
pub proof fn law_sync_handler_13<S, M, F, T1, T2, T3, T4, T5, T6, T7, T8, T9, T10, T11, T12, T13>(
    handler: F,
    s: S,
    v: Value,
    p: Vec<Vec<u8>>,
    ack_id: Option<i64>,
    output: Option<()>,
) where
    F: FnOnce(
        T1, T2, T3, T4, T5, T6, T7, T8, T9, T10, T11, T12, T13,
    ) + Send + Sync + Clone + 'static,
    T1: FromMessageParts<S> + Send,
    T2: FromMessageParts<S> + Send,
    T3: FromMessageParts<S> + Send,
    T4: FromMessageParts<S> + Send,
    T5: FromMessageParts<S> + Send,
    T6: FromMessageParts<S> + Send,
    T7: FromMessageParts<S> + Send,
    T8: FromMessageParts<S> + Send,
    T9: FromMessageParts<S> + Send,
    T10: FromMessageParts<S> + Send,
    T11: FromMessageParts<S> + Send,
    T12: FromMessageParts<S> + Send,
    T13: FromMessage<S, M> + Send,

    ensures
        ({
            forall|
                f: F, t1: T1, t2: T2, t3: T3, t4: T4, t5: T5, t6: T6, t7: T7, t8: T8, t9: T9,
                t10: T10, t11: T11, t12: T12, t13: T13,
            |
                cloned(handler, f) ==> #[trigger] call_requires(
                    f, (t1, t2, t3, t4, t5, t6, t7, t8, t9, t10, t11, t12, t13),
                )
        }) ==> (
            <F as MessageHandler<
                S,
                (private::Sync, M, T1, T2, T3, T4, T5, T6, T7, T8, T9, T10, T11, T12, T13),
            >>::ready(&handler)
        ),
        (
            <F as MessageHandler<
                S,
                (private::Sync, M, T1, T2, T3, T4, T5, T6, T7, T8, T9, T10, T11, T12, T13),
            >>::handles(&handler, s, v, p, ack_id, output)
        ) && output is Some ==> ({
            exists|
                f: F, t1: T1, t2: T2, t3: T3, t4: T4, t5: T5, t6: T6, t7: T7, t8: T8, t9: T9,
                t10: T10, t11: T11, t12: T12, t13: T13,
            |
                {
                    &&& cloned(handler, f)
                    &&& #[trigger] call_ensures(
                        f, (t1, t2, t3, t4, t5, t6, t7, t8, t9, t10, t11, t12, t13), output->0,
                    )
                    &&& <_ as FromMessage<S, Via13<M>>>::extracts(
                        s,
                        v,
                        p,
                        ack_id,
                        Ok(
                            Args(t1, Args(t2, Args(t3, Args(t4, Args(t5, Args(t6, Args(t7,
                            Args(t8, Args(t9, Args(t10, Args(t11, Args(t12, t13)))))))))))),
                        ),
                    )
                }
        }),
        (
            <F as MessageHandler<
                S,
                (private::Sync, M, T1, T2, T3, T4, T5, T6, T7, T8, T9, T10, T11, T12, T13),
            >>::handles(&handler, s, v, p, ack_id, output)
        ) && output is None ==> ({
            exists|extracted: Extracted<
                S, Via13<M>, Args13<T1, T2, T3, T4, T5, T6, T7, T8, T9, T10, T11, T12, T13>,
            >|
                {
                    &&& extracted is Err
                    &&& #[trigger] <_ as FromMessage<S, Via13<M>>>::extracts(
                        s,
                        v,
                        p,
                        ack_id,
                        extracted,
                    )
                }
        }),
{
}

/// An async handler with 13 arguments may be called if its copies may be called with whatever
/// is extracted. What comes out is what a copy of it returned for arguments that were
/// extracted from the message, and nothing comes out only if they could not be.
pub proof fn law_async_handler_13<S, M, F, Fut, T1, T2, T3, T4, T5, T6, T7, T8, T9, T10, T11, T12, T13>(
    handler: F,
    s: S,
    v: Value,
    p: Vec<Vec<u8>>,
    ack_id: Option<i64>,
    output: Option<Fut>,
) where
    F: FnOnce(
        T1, T2, T3, T4, T5, T6, T7, T8, T9, T10, T11, T12, T13,
    ) -> Fut + Send + Sync + Clone + 'static,
    Fut: Future<Output = ()> + Send + 'static,
    T1: FromMessageParts<S> + Send,
    T2: FromMessageParts<S> + Send,
    T3: FromMessageParts<S> + Send,
    T4: FromMessageParts<S> + Send,
    T5: FromMessageParts<S> + Send,
    T6: FromMessageParts<S> + Send,
    T7: FromMessageParts<S> + Send,
    T8: FromMessageParts<S> + Send,
    T9: FromMessageParts<S> + Send,
    T10: FromMessageParts<S> + Send,
    T11: FromMessageParts<S> + Send,
    T12: FromMessageParts<S> + Send,
    T13: FromMessage<S, M> + Send,

    ensures
        ({
            forall|
                f: F, t1: T1, t2: T2, t3: T3, t4: T4, t5: T5, t6: T6, t7: T7, t8: T8, t9: T9,
                t10: T10, t11: T11, t12: T12, t13: T13,
            |
                cloned(handler, f) ==> #[trigger] call_requires(
                    f, (t1, t2, t3, t4, t5, t6, t7, t8, t9, t10, t11, t12, t13),
                )
        }) ==> (
            <F as MessageHandler<
                S,
                (private::Async, M, T1, T2, T3, T4, T5, T6, T7, T8, T9, T10, T11, T12, T13),
            >>::ready(&handler)
        ),
        (
            <F as MessageHandler<
                S,
                (private::Async, M, T1, T2, T3, T4, T5, T6, T7, T8, T9, T10, T11, T12, T13),
            >>::handles(&handler, s, v, p, ack_id, output)
        ) && output is Some ==> ({
            exists|
                f: F, t1: T1, t2: T2, t3: T3, t4: T4, t5: T5, t6: T6, t7: T7, t8: T8, t9: T9,
                t10: T10, t11: T11, t12: T12, t13: T13,
            |
                {
                    &&& cloned(handler, f)
                    &&& #[trigger] call_ensures(
                        f, (t1, t2, t3, t4, t5, t6, t7, t8, t9, t10, t11, t12, t13), output->0,
                    )
                    &&& <_ as FromMessage<S, Via13<M>>>::extracts(
                        s,
                        v,
                        p,
                        ack_id,
                        Ok(
                            Args(t1, Args(t2, Args(t3, Args(t4, Args(t5, Args(t6, Args(t7,
                            Args(t8, Args(t9, Args(t10, Args(t11, Args(t12, t13)))))))))))),
                        ),
                    )
                }
        }),
        (
            <F as MessageHandler<
                S,
                (private::Async, M, T1, T2, T3, T4, T5, T6, T7, T8, T9, T10, T11, T12, T13),
            >>::handles(&handler, s, v, p, ack_id, output)
        ) && output is None ==> ({
            exists|extracted: Extracted<
                S, Via13<M>, Args13<T1, T2, T3, T4, T5, T6, T7, T8, T9, T10, T11, T12, T13>,
            >|
                {
                    &&& extracted is Err
                    &&& #[trigger] <_ as FromMessage<S, Via13<M>>>::extracts(
                        s,
                        v,
                        p,
                        ack_id,
                        extracted,
                    )
                }
        }),
{
}

/// A sync handler with 14 arguments may be called if its copies may be called with whatever
/// is extracted. What comes out is what a copy of it returned for arguments that were
/// extracted from the message, and nothing comes out only if they could not be.
pub proof fn law_sync_handler_14<S, M, F, T1, T2, T3, T4, T5, T6, T7, T8, T9, T10, T11, T12, T13, T14>(
    handler: F,
    s: S,
    v: Value,
    p: Vec<Vec<u8>>,
    ack_id: Option<i64>,
    output: Option<()>,
) where
    F: FnOnce(
        T1, T2, T3, T4, T5, T6, T7, T8, T9, T10, T11, T12, T13, T14,
    ) + Send + Sync + Clone + 'static,
    T1: FromMessageParts<S> + Send,
    T2: FromMessageParts<S> + Send,
    T3: FromMessageParts<S> + Send,
    T4: FromMessageParts<S> + Send,
    T5: FromMessageParts<S> + Send,
    T6: FromMessageParts<S> + Send,
    T7: FromMessageParts<S> + Send,
    T8: FromMessageParts<S> + Send,
    T9: FromMessageParts<S> + Send,
    T10: FromMessageParts<S> + Send,
    T11: FromMessageParts<S> + Send,
    T12: FromMessageParts<S> + Send,
    T13: FromMessageParts<S> + Send,
    T14: FromMessage<S, M> + Send,

    ensures
        ({
            forall|
                f: F, t1: T1, t2: T2, t3: T3, t4: T4, t5: T5, t6: T6, t7: T7, t8: T8, t9: T9,
                t10: T10, t11: T11, t12: T12, t13: T13, t14: T14,
            |
                cloned(handler, f) ==> #[trigger] call_requires(
                    f, (t1, t2, t3, t4, t5, t6, t7, t8, t9, t10, t11, t12, t13, t14),
                )
        }) ==> (
            <F as MessageHandler<
                S,
                (private::Sync, M, T1, T2, T3, T4, T5, T6, T7, T8, T9, T10, T11, T12, T13, T14),
            >>::ready(&handler)
        ),
        (
            <F as MessageHandler<
                S,
                (private::Sync, M, T1, T2, T3, T4, T5, T6, T7, T8, T9, T10, T11, T12, T13, T14),
            >>::handles(&handler, s, v, p, ack_id, output)
        ) && output is Some ==> ({
            exists|
                f: F, t1: T1, t2: T2, t3: T3, t4: T4, t5: T5, t6: T6, t7: T7, t8: T8, t9: T9,
                t10: T10, t11: T11, t12: T12, t13: T13, t14: T14,
            |
                {
                    &&& cloned(handler, f)
                    &&& #[trigger] call_ensures(
                        f, (t1, t2, t3, t4, t5, t6, t7, t8, t9, t10, t11, t12, t13, t14),
                        output->0,
                    )
                    &&& <_ as FromMessage<S, Via14<M>>>::extracts(
                        s,
                        v,
                        p,
                        ack_id,
                        Ok(
                            Args(t1, Args(t2, Args(t3, Args(t4, Args(t5, Args(t6, Args(t7,
                            Args(t8, Args(t9, Args(t10, Args(t11, Args(t12, Args(t13,
                            t14))))))))))))),
                        ),
                    )
                }
        }),
        (
            <F as MessageHandler<
                S,
                (private::Sync, M, T1, T2, T3, T4, T5, T6, T7, T8, T9, T10, T11, T12, T13, T14),
            >>::handles(&handler, s, v, p, ack_id, output)
        ) && output is None ==> ({
            exists|extracted: Extracted<
                S, Via14<M>,
                Args14<T1, T2, T3, T4, T5, T6, T7, T8, T9, T10, T11, T12, T13, T14>,
            >|
                {
                    &&& extracted is Err
                    &&& #[trigger] <_ as FromMessage<S, Via14<M>>>::extracts(
                        s,
                        v,
                        p,
                        ack_id,
                        extracted,
                    )
                }
        }),
{
}

/// An async handler with 14 arguments may be called if its copies may be called with whatever
/// is extracted. What comes out is what a copy of it returned for arguments that were
/// extracted from the message, and nothing comes out only if they could not be.
pub proof fn law_async_handler_14<S, M, F, Fut, T1, T2, T3, T4, T5, T6, T7, T8, T9, T10, T11, T12, T13, T14>(
    handler: F,
    s: S,
    v: Value,
    p: Vec<Vec<u8>>,
    ack_id: Option<i64>,
    output: Option<Fut>,
) where
    F: FnOnce(
        T1, T2, T3, T4, T5, T6, T7, T8, T9, T10, T11, T12, T13, T14,
    ) -> Fut + Send + Sync + Clone + 'static,
    Fut: Future<Output = ()> + Send + 'static,
    T1: FromMessageParts<S> + Send,
    T2: FromMessageParts<S> + Send,
    T3: FromMessageParts<S> + Send,
    T4: FromMessageParts<S> + Send,
    T5: FromMessageParts<S> + Send,
    T6: FromMessageParts<S> + Send,
    T7: FromMessageParts<S> + Send,
    T8: FromMessageParts<S> + Send,
    T9: FromMessageParts<S> + Send,
    T10: FromMessageParts<S> + Send,
    T11: FromMessageParts<S> + Send,
    T12: FromMessageParts<S> + Send,
    T13: FromMessageParts<S> + Send,
    T14: FromMessage<S, M> + Send,

    ensures
        ({
            forall|
                f: F, t1: T1, t2: T2, t3: T3, t4: T4, t5: T5, t6: T6, t7: T7, t8: T8, t9: T9,
                t10: T10, t11: T11, t12: T12, t13: T13, t14: T14,
            |
                cloned(handler, f) ==> #[trigger] call_requires(
                    f, (t1, t2, t3, t4, t5, t6, t7, t8, t9, t10, t11, t12, t13, t14),
                )
        }) ==> (
            <F as MessageHandler<
                S,
                (private::Async, M, T1, T2, T3, T4, T5, T6, T7, T8, T9, T10, T11, T12, T13, T14),
            >>::ready(&handler)
        ),
        (
            <F as MessageHandler<
                S,
                (private::Async, M, T1, T2, T3, T4, T5, T6, T7, T8, T9, T10, T11, T12, T13, T14),
            >>::handles(&handler, s, v, p, ack_id, output)
        ) && output is Some ==> ({
            exists|
                f: F, t1: T1, t2: T2, t3: T3, t4: T4, t5: T5, t6: T6, t7: T7, t8: T8, t9: T9,
                t10: T10, t11: T11, t12: T12, t13: T13, t14: T14,
            |
                {
                    &&& cloned(handler, f)
                    &&& #[trigger] call_ensures(
                        f, (t1, t2, t3, t4, t5, t6, t7, t8, t9, t10, t11, t12, t13, t14),
                        output->0,
                    )
                    &&& <_ as FromMessage<S, Via14<M>>>::extracts(
                        s,
                        v,
                        p,
                        ack_id,
                        Ok(
                            Args(t1, Args(t2, Args(t3, Args(t4, Args(t5, Args(t6, Args(t7,
                            Args(t8, Args(t9, Args(t10, Args(t11, Args(t12, Args(t13,
                            t14))))))))))))),
                        ),
                    )
                }
        }),
        (
            <F as MessageHandler<
                S,
                (private::Async, M, T1, T2, T3, T4, T5, T6, T7, T8, T9, T10, T11, T12, T13, T14),
            >>::handles(&handler, s, v, p, ack_id, output)
        ) && output is None ==> ({
            exists|extracted: Extracted<
                S, Via14<M>,
                Args14<T1, T2, T3, T4, T5, T6, T7, T8, T9, T10, T11, T12, T13, T14>,
            >|
                {
                    &&& extracted is Err
                    &&& #[trigger] <_ as FromMessage<S, Via14<M>>>::extracts(
                        s,
                        v,
                        p,
                        ack_id,
                        extracted,
                    )
                }
        }),
{
}

/// A sync handler with 15 arguments may be called if its copies may be called with whatever
/// is extracted. What comes out is what a copy of it returned for arguments that were
/// extracted from the message, and nothing comes out only if they could not be.
pub proof fn law_sync_handler_15<S, M, F, T1, T2, T3, T4, T5, T6, T7, T8, T9, T10, T11, T12, T13, T14, T15>(
    handler: F,
    s: S,
    v: Value,
    p: Vec<Vec<u8>>,
    ack_id: Option<i64>,
    output: Option<()>,
) where
    F: FnOnce(
        T1, T2, T3, T4, T5, T6, T7, T8, T9, T10, T11, T12, T13, T14, T15,
    ) + Send + Sync + Clone + 'static,
    T1: FromMessageParts<S> + Send,
    T2: FromMessageParts<S> + Send,
    T3: FromMessageParts<S> + Send,
    T4: FromMessageParts<S> + Send,
    T5: FromMessageParts<S> + Send,
    T6: FromMessageParts<S> + Send,
    T7: FromMessageParts<S> + Send,
    T8: FromMessageParts<S> + Send,
    T9: FromMessageParts<S> + Send,
    T10: FromMessageParts<S> + Send,
    T11: FromMessageParts<S> + Send,
    T12: FromMessageParts<S> + Send,
    T13: FromMessageParts<S> + Send,
    T14: FromMessageParts<S> + Send,
    T15: FromMessage<S, M> + Send,

    ensures
        ({
            forall|
                f: F, t1: T1, t2: T2, t3: T3, t4: T4, t5: T5, t6: T6, t7: T7, t8: T8, t9: T9,
                t10: T10, t11: T11, t12: T12, t13: T13, t14: T14, t15: T15,
            |
                cloned(handler, f) ==> #[trigger] call_requires(
                    f, (t1, t2, t3, t4, t5, t6, t7, t8, t9, t10, t11, t12, t13, t14, t15),
                )
        }) ==> (
            <F as MessageHandler<
                S,
                (private::Sync, M, T1, T2, T3, T4, T5, T6, T7, T8, T9, T10, T11, T12, T13, T14, T15),
            >>::ready(&handler)
        ),
        (
            <F as MessageHandler<
                S,
                (private::Sync, M, T1, T2, T3, T4, T5, T6, T7, T8, T9, T10, T11, T12, T13, T14, T15),
            >>::handles(&handler, s, v, p, ack_id, output)
        ) && output is Some ==> ({
            exists|
                f: F, t1: T1, t2: T2, t3: T3, t4: T4, t5: T5, t6: T6, t7: T7, t8: T8, t9: T9,
                t10: T10, t11: T11, t12: T12, t13: T13, t14: T14, t15: T15,
            |
                {
                    &&& cloned(handler, f)
                    &&& #[trigger] call_ensures(
                        f, (t1, t2, t3, t4, t5, t6, t7, t8, t9, t10, t11, t12, t13, t14, t15),
                        output->0,
                    )
                    &&& <_ as FromMessage<S, Via15<M>>>::extracts(
                        s,
                        v,
                        p,
                        ack_id,
                        Ok(
                            Args(t1, Args(t2, Args(t3, Args(t4, Args(t5, Args(t6, Args(t7,
                            Args(t8, Args(t9, Args(t10, Args(t11, Args(t12, Args(t13, Args(t14,
                            t15)))))))))))))),
                        ),
                    )
                }
        }),
        (
            <F as MessageHandler<
                S,
                (private::Sync, M, T1, T2, T3, T4, T5, T6, T7, T8, T9, T10, T11, T12, T13, T14, T15),
            >>::handles(&handler, s, v, p, ack_id, output)
        ) && output is None ==> ({
            exists|extracted: Extracted<
                S, Via15<M>,
                Args15<T1, T2, T3, T4, T5, T6, T7, T8, T9, T10, T11, T12, T13, T14, T15>,
            >|
                {
                    &&& extracted is Err
                    &&& #[trigger] <_ as FromMessage<S, Via15<M>>>::extracts(
                        s,
                        v,
                        p,
                        ack_id,
                        extracted,
                    )
                }
        }),
{
}

/// An async handler with 15 arguments may be called if its copies may be called with whatever
/// is extracted. What comes out is what a copy of it returned for arguments that were
/// extracted from the message, and nothing comes out only if they could not be.
pub proof fn law_async_handler_15<S, M, F, Fut, T1, T2, T3, T4, T5, T6, T7, T8, T9, T10, T11, T12, T13, T14, T15>(
    handler: F,
    s: S,
    v: Value,
    p: Vec<Vec<u8>>,
    ack_id: Option<i64>,
    output: Option<Fut>,
) where
    F: FnOnce(
        T1, T2, T3, T4, T5, T6, T7, T8, T9, T10, T11, T12, T13, T14, T15,
    ) -> Fut + Send + Sync + Clone + 'static,
    Fut: Future<Output = ()> + Send + 'static,
    T1: FromMessageParts<S> + Send,
    T2: FromMessageParts<S> + Send,
    T3: FromMessageParts<S> + Send,
    T4: FromMessageParts<S> + Send,
    T5: FromMessageParts<S> + Send,
    T6: FromMessageParts<S> + Send,
    T7: FromMessageParts<S> + Send,
    T8: FromMessageParts<S> + Send,
    T9: FromMessageParts<S> + Send,
    T10: FromMessageParts<S> + Send,
    T11: FromMessageParts<S> + Send,
    T12: FromMessageParts<S> + Send,
    T13: FromMessageParts<S> + Send,
    T14: FromMessageParts<S> + Send,
    T15: FromMessage<S, M> + Send,

    ensures
        ({
            forall|
                f: F, t1: T1, t2: T2, t3: T3, t4: T4, t5: T5, t6: T6, t7: T7, t8: T8, t9: T9,
                t10: T10, t11: T11, t12: T12, t13: T13, t14: T14, t15: T15,
            |
                cloned(handler, f) ==> #[trigger] call_requires(
                    f, (t1, t2, t3, t4, t5, t6, t7, t8, t9, t10, t11, t12, t13, t14, t15),
                )
        }) ==> (
            <F as MessageHandler<
                S,
                (private::Async, M, T1, T2, T3, T4, T5, T6, T7, T8, T9, T10, T11, T12, T13, T14, T15),
            >>::ready(&handler)
        ),
        (
            <F as MessageHandler<
                S,
                (private::Async, M, T1, T2, T3, T4, T5, T6, T7, T8, T9, T10, T11, T12, T13, T14, T15),
            >>::handles(&handler, s, v, p, ack_id, output)
        ) && output is Some ==> ({
            exists|
                f: F, t1: T1, t2: T2, t3: T3, t4: T4, t5: T5, t6: T6, t7: T7, t8: T8, t9: T9,
                t10: T10, t11: T11, t12: T12, t13: T13, t14: T14, t15: T15,
            |
                {
                    &&& cloned(handler, f)
                    &&& #[trigger] call_ensures(
                        f, (t1, t2, t3, t4, t5, t6, t7, t8, t9, t10, t11, t12, t13, t14, t15),
                        output->0,
                    )
                    &&& <_ as FromMessage<S, Via15<M>>>::extracts(
                        s,
                        v,
                        p,
                        ack_id,
                        Ok(
                            Args(t1, Args(t2, Args(t3, Args(t4, Args(t5, Args(t6, Args(t7,
                            Args(t8, Args(t9, Args(t10, Args(t11, Args(t12, Args(t13, Args(t14,
                            t15)))))))))))))),
                        ),
                    )
                }
        }),
        (
            <F as MessageHandler<
                S,
                (private::Async, M, T1, T2, T3, T4, T5, T6, T7, T8, T9, T10, T11, T12, T13, T14, T15),
            >>::handles(&handler, s, v, p, ack_id, output)
        ) && output is None ==> ({
            exists|extracted: Extracted<
                S, Via15<M>,
                Args15<T1, T2, T3, T4, T5, T6, T7, T8, T9, T10, T11, T12, T13, T14, T15>,
            >|
                {
                    &&& extracted is Err
                    &&& #[trigger] <_ as FromMessage<S, Via15<M>>>::extracts(
                        s,
                        v,
                        p,
                        ack_id,
                        extracted,
                    )
                }
        }),
{
}

/// A sync handler with 16 arguments may be called if its copies may be called with whatever
/// is extracted. What comes out is what a copy of it returned for arguments that were
/// extracted from the message, and nothing comes out only if they could not be.
pub proof fn law_sync_handler_16<S, M, F, T1, T2, T3, T4, T5, T6, T7, T8, T9, T10, T11, T12, T13, T14, T15, T16>(
    handler: F,
    s: S,
    v: Value,
    p: Vec<Vec<u8>>,
    ack_id: Option<i64>,
    output: Option<()>,
) where
    F: FnOnce(
        T1, T2, T3, T4, T5, T6, T7, T8, T9, T10, T11, T12, T13, T14, T15, T16,
    ) + Send + Sync + Clone + 'static,
    T1: FromMessageParts<S> + Send,
    T2: FromMessageParts<S> + Send,
    T3: FromMessageParts<S> + Send,
    T4: FromMessageParts<S> + Send,
    T5: FromMessageParts<S> + Send,
    T6: FromMessageParts<S> + Send,
    T7: FromMessageParts<S> + Send,
    T8: FromMessageParts<S> + Send,
    T9: FromMessageParts<S> + Send,
    T10: FromMessageParts<S> + Send,
    T11: FromMessageParts<S> + Send,
    T12: FromMessageParts<S> + Send,
    T13: FromMessageParts<S> + Send,
    T14: FromMessageParts<S> + Send,
    T15: FromMessageParts<S> + Send,
    T16: FromMessage<S, M> + Send,

    ensures
        ({
            forall|
                f: F, t1: T1, t2: T2, t3: T3, t4: T4, t5: T5, t6: T6, t7: T7, t8: T8, t9: T9,
                t10: T10, t11: T11, t12: T12, t13: T13, t14: T14, t15: T15, t16: T16,
            |
                cloned(handler, f) ==> #[trigger] call_requires(
                    f, (t1, t2, t3, t4, t5, t6, t7, t8, t9, t10, t11, t12, t13, t14, t15, t16),
                )
        }) ==> (
            <F as MessageHandler<
                S,
                (private::Sync, M, T1, T2, T3, T4, T5, T6, T7, T8, T9, T10, T11, T12, T13, T14, T15, T16),
            >>::ready(&handler)
        ),
        (
            <F as MessageHandler<
                S,
                (private::Sync, M, T1, T2, T3, T4, T5, T6, T7, T8, T9, T10, T11, T12, T13, T14, T15, T16),
            >>::handles(&handler, s, v, p, ack_id, output)
        ) && output is Some ==> ({
            exists|
                f: F, t1: T1, t2: T2, t3: T3, t4: T4, t5: T5, t6: T6, t7: T7, t8: T8, t9: T9,
                t10: T10, t11: T11, t12: T12, t13: T13, t14: T14, t15: T15, t16: T16,
            |
                {
                    &&& cloned(handler, f)
                    &&& #[trigger] call_ensures(
                        f,
                        (t1, t2, t3, t4, t5, t6, t7, t8, t9, t10, t11, t12, t13, t14, t15, t16),
                        output->0,
                    )
                    &&& <_ as FromMessage<S, Via16<M>>>::extracts(
                        s,
                        v,
                        p,
                        ack_id,
                        Ok(
                            Args(t1, Args(t2, Args(t3, Args(t4, Args(t5, Args(t6, Args(t7,
                            Args(t8, Args(t9, Args(t10, Args(t11, Args(t12, Args(t13, Args(t14,
                            Args(t15, t16))))))))))))))),
                        ),
                    )
                }
        }),
        (
            <F as MessageHandler<
                S,
                (private::Sync, M, T1, T2, T3, T4, T5, T6, T7, T8, T9, T10, T11, T12, T13, T14, T15, T16),
            >>::handles(&handler, s, v, p, ack_id, output)
        ) && output is None ==> ({
            exists|extracted: Extracted<
                S, Via16<M>,
                Args16<T1, T2, T3, T4, T5, T6, T7, T8, T9, T10, T11, T12, T13, T14, T15, T16>,
            >|
                {
                    &&& extracted is Err
                    &&& #[trigger] <_ as FromMessage<S, Via16<M>>>::extracts(
                        s,
                        v,
                        p,
                        ack_id,
                        extracted,
                    )
                }
        }),
{
}

/// An async handler with 16 arguments may be called if its copies may be called with whatever
/// is extracted. What comes out is what a copy of it returned for arguments that were
/// extracted from the message, and nothing comes out only if they could not be.
pub proof fn law_async_handler_16<S, M, F, Fut, T1, T2, T3, T4, T5, T6, T7, T8, T9, T10, T11, T12, T13, T14, T15, T16>(
    handler: F,
    s: S,
    v: Value,
    p: Vec<Vec<u8>>,
    ack_id: Option<i64>,
    output: Option<Fut>,
) where
    F: FnOnce(
        T1, T2, T3, T4, T5, T6, T7, T8, T9, T10, T11, T12, T13, T14, T15, T16,
    ) -> Fut + Send + Sync + Clone + 'static,
    Fut: Future<Output = ()> + Send + 'static,
    T1: FromMessageParts<S> + Send,
    T2: FromMessageParts<S> + Send,
    T3: FromMessageParts<S> + Send,
    T4: FromMessageParts<S> + Send,
    T5: FromMessageParts<S> + Send,
    T6: FromMessageParts<S> + Send,
    T7: FromMessageParts<S> + Send,
    T8: FromMessageParts<S> + Send,
    T9: FromMessageParts<S> + Send,
    T10: FromMessageParts<S> + Send,
    T11: FromMessageParts<S> + Send,
    T12: FromMessageParts<S> + Send,
    T13: FromMessageParts<S> + Send,
    T14: FromMessageParts<S> + Send,
    T15: FromMessageParts<S> + Send,
    T16: FromMessage<S, M> + Send,

    ensures
        ({
            forall|
                f: F, t1: T1, t2: T2, t3: T3, t4: T4, t5: T5, t6: T6, t7: T7, t8: T8, t9: T9,
                t10: T10, t11: T11, t12: T12, t13: T13, t14: T14, t15: T15, t16: T16,
            |
                cloned(handler, f) ==> #[trigger] call_requires(
                    f, (t1, t2, t3, t4, t5, t6, t7, t8, t9, t10, t11, t12, t13, t14, t15, t16),
                )
        }) ==> (
            <F as MessageHandler<
                S,
                (private::Async, M, T1, T2, T3, T4, T5, T6, T7, T8, T9, T10, T11, T12, T13, T14, T15, T16),
            >>::ready(&handler)
        ),
        (
            <F as MessageHandler<
                S,
                (private::Async, M, T1, T2, T3, T4, T5, T6, T7, T8, T9, T10, T11, T12, T13, T14, T15, T16),
            >>::handles(&handler, s, v, p, ack_id, output)
        ) && output is Some ==> ({
            exists|
                f: F, t1: T1, t2: T2, t3: T3, t4: T4, t5: T5, t6: T6, t7: T7, t8: T8, t9: T9,
                t10: T10, t11: T11, t12: T12, t13: T13, t14: T14, t15: T15, t16: T16,
            |
                {
                    &&& cloned(handler, f)
                    &&& #[trigger] call_ensures(
                        f,
                        (t1, t2, t3, t4, t5, t6, t7, t8, t9, t10, t11, t12, t13, t14, t15, t16),
                        output->0,
                    )
                    &&& <_ as FromMessage<S, Via16<M>>>::extracts(
                        s,
                        v,
                        p,
                        ack_id,
                        Ok(
                            Args(t1, Args(t2, Args(t3, Args(t4, Args(t5, Args(t6, Args(t7,
                            Args(t8, Args(t9, Args(t10, Args(t11, Args(t12, Args(t13, Args(t14,
                            Args(t15, t16))))))))))))))),
                        ),
                    )
                }
        }),
        (
            <F as MessageHandler<
                S,
                (private::Async, M, T1, T2, T3, T4, T5, T6, T7, T8, T9, T10, T11, T12, T13, T14, T15, T16),
            >>::handles(&handler, s, v, p, ack_id, output)
        ) && output is None ==> ({
            exists|extracted: Extracted<
                S, Via16<M>,
                Args16<T1, T2, T3, T4, T5, T6, T7, T8, T9, T10, T11, T12, T13, T14, T15, T16>,
            >|
                {
                    &&& extracted is Err
                    &&& #[trigger] <_ as FromMessage<S, Via16<M>>>::extracts(
                        s,
                        v,
                        p,
                        ack_id,
                        extracted,
                    )
                }
        }),
{
}

} // verus!
