//! The server's registry of method handlers and the dispatch of a
//! request to the handler registered under its method name.

use crate::error::{CoreError, CoreResult};
use crate::json::JsonValue;
use crate::protocol::{is_err_response, ok_response, Request, Response, METHOD_ECHO};
use vstd::prelude::*;

verus! {

/// A handler that users of the server implement for their own methods.
/// It gets the server it runs in and the request, and answers with a
/// response or an error.
pub trait MethodHandler: Sized {
    /// Whether `outcome` is an answer this handler may give to `request`
    /// when it runs in a server whose handlers are `handlers`. An
    /// implementation narrows it to the answers it gives; one that does
    /// not say may give any answer.
    open spec fn answers(
        &self,
        handlers: Map<Seq<char>, Handler<Self>>,
        request: Request,
        outcome: CoreResult<Response>,
    ) -> bool {
        true
    }

    fn call(&self, server: &Server<Self>, request: Request) -> (outcome: CoreResult<Response>)
        ensures
            self.answers(server.handlers(), request, outcome),
    ;
}

/// A handler as the registry holds it: the built-in `echo`, or one of
/// the user's.
pub enum Handler<H> {
    /// The built-in `echo`: answers with the request's parameters as an
    /// array.
    Echo,
    /// A handler supplied by the user.
    Custom(H),
}

/// Registry of named method handlers.
pub struct Server<H> {
    handlers: Vec<(String, Handler<H>)>,
}

/// Whether no name occurs twice among `entries`.
pub open spec fn names_unique<H>(entries: Seq<(String, Handler<H>)>) -> bool {
    forall|i: int, j: int|
        0 <= i < entries.len() && 0 <= j < entries.len() && i != j ==> (#[trigger] entries[i]).0@
            != (#[trigger] entries[j]).0@
}

/// The map from names to handlers that `entries` hold.
pub open spec fn entries_map<H>(entries: Seq<(String, Handler<H>)>) -> Map<Seq<char>, Handler<H>> {
    Map::new(
        |k: Seq<char>| exists|i: int| 0 <= i < entries.len() && (#[trigger] entries[i]).0@ == k,
        |k: Seq<char>|
            entries[choose|i: int| 0 <= i < entries.len() && (#[trigger] entries[i]).0@ == k].1,
    )
}

/// Writing `(name, handler)` at index `at` of entries whose names are
/// unique, either over the entry that has that name or appended after
/// the last one when no entry has it, keeps the names unique and maps
/// `name` to `handler`, every other name as before.
proof fn lemma_write_entry<H>(
    old_entries: Seq<(String, Handler<H>)>,
    new_entries: Seq<(String, Handler<H>)>,
    at: int,
    name: Seq<char>,
    handler: Handler<H>,
)
    requires
        names_unique(old_entries),
        0 <= at <= old_entries.len(),
        at < old_entries.len() ==> old_entries[at].0@ == name,
        at == old_entries.len() ==> forall|k: int|
            0 <= k < old_entries.len() ==> (#[trigger] old_entries[k]).0@ != name,
        new_entries.len() == if at < old_entries.len() {
            old_entries.len()
        } else {
            old_entries.len() + 1
        },
        new_entries[at].0@ == name,
        new_entries[at].1 == handler,
        forall|k: int| 0 <= k < new_entries.len() && k != at ==> new_entries[k] == old_entries[k],
    ensures
        names_unique(new_entries),
        entries_map(new_entries) == entries_map(old_entries).insert(name, handler),
{
    assert forall|i: int, j: int|
        0 <= i < new_entries.len() && 0 <= j < new_entries.len() && i != j implies (
        #[trigger] new_entries[i]).0@ != (#[trigger] new_entries[j]).0@ by {
        if i != at && j != at {
            assert(new_entries[i] == old_entries[i] && new_entries[j] == old_entries[j]);
        } else if i == at {
            assert(new_entries[j] == old_entries[j]);
        } else {
            assert(new_entries[i] == old_entries[i]);
        }
    }
    let goal = entries_map(old_entries).insert(name, handler);
    assert forall|k: Seq<char>|
        #![auto]
        entries_map(new_entries).dom().contains(k) == goal.dom().contains(k) by {
        if k != name && entries_map(old_entries).dom().contains(k) {
            let w = choose|w: int| 0 <= w < old_entries.len() && (#[trigger] old_entries[w]).0@ == k;
            assert(new_entries[w] == old_entries[w]);
        }
        if entries_map(new_entries).dom().contains(k) && k != name {
            let w = choose|w: int| 0 <= w < new_entries.len() && (#[trigger] new_entries[w]).0@ == k;
            assert(new_entries[w] == old_entries[w]);
        }
    }
    assert forall|k: Seq<char>|
        #![auto]
        entries_map(new_entries).dom().contains(k) implies entries_map(new_entries)[k]
        == goal[k] by {
        let w = choose|w: int| 0 <= w < new_entries.len() && (#[trigger] new_entries[w]).0@ == k;
        if k != name {
            let v = choose|v: int| 0 <= v < old_entries.len() && (#[trigger] old_entries[v]).0@ == k;
            assert(new_entries[w] == old_entries[w]);
            assert(v == w);
        } else {
            assert(w == at);
        }
    }
    assert(entries_map(new_entries) =~= goal);
}

impl<H> Server<H> {
    #[verifier::type_invariant]
    spec fn inv(self) -> bool {
        names_unique(self.handlers@)
    }

    /// The handlers the server holds, by method name.
    pub closed spec fn handlers(self) -> Map<Seq<char>, Handler<H>> {
        entries_map(self.handlers@)
    }

    /// Create a server whose only handler is the built-in `echo`.
    pub fn new() -> (s: Self)
        ensures
            s.handlers() == Map::<Seq<char>, Handler<H>>::empty().insert(
                METHOD_ECHO@,
                Handler::Echo,
            ),
    {
        let mut s = Server { handlers: Vec::new() };
        proof {
            assert(s.handlers() =~= Map::<Seq<char>, Handler<H>>::empty());
        }
        s.register(String::from_str(METHOD_ECHO), Handler::Echo);
        s
    }

    /// Register `handler` under `name`, replacing any handler that the
    /// name had.
    pub fn register(&mut self, name: String, handler: Handler<H>)
        ensures
            final(self).handlers() == old(self).handlers().insert(name@, handler),
    {
        proof {
            use_type_invariant(&*self);
        }
        let ghost old_entries = self.handlers@;
        let n = self.handlers.len();
        let mut i: usize = 0;
        while i < n
            invariant
                n == self.handlers@.len(),
                self.handlers@ == old_entries,
                old_entries == old(self).handlers@,
                names_unique(old_entries),
                i <= n,
                forall|k: int| 0 <= k < i ==> (#[trigger] old_entries[k]).0@ != name@,
            decreases n - i,
        {
            if self.handlers[i].0 == name {
                let mut entries = Vec::new();
                std::mem::swap(&mut entries, &mut self.handlers);
                entries.set(i, (name, handler));
                proof {
                    lemma_write_entry(old_entries, entries@, i as int, name@, handler);
                }
                self.handlers = entries;
                return;
            }
            i = i + 1;
        }
        let mut entries = Vec::new();
        std::mem::swap(&mut entries, &mut self.handlers);
        entries.push((name, handler));
        proof {
            lemma_write_entry(old_entries, entries@, n as int, name@, handler);
        }
        self.handlers = entries;
    }

    /// Look up a handler by method name.
    pub fn get(&self, method: &str) -> (r: Option<&Handler<H>>)
        ensures
            r is Some <==> self.handlers().contains_key(method@),
            r matches Some(h) ==> *h == self.handlers()[method@],
    {
        proof {
            use_type_invariant(self);
        }
        let key = method.to_owned();
        let n = self.handlers.len();
        let mut i: usize = 0;
        while i < n
            invariant
                n == self.handlers@.len(),
                names_unique(self.handlers@),
                key@ == method@,
                i <= n,
                forall|k: int| 0 <= k < i ==> (#[trigger] self.handlers@[k]).0@ != key@,
            decreases n - i,
        {
            if self.handlers[i].0 == key {
                proof {
                    let w = choose|w: int|
                        0 <= w < self.handlers@.len() && (#[trigger] self.handlers@[w]).0@
                            == method@;
                    assert(self.handlers@[i as int].0@ == method@);
                    assert(w == i);
                }
                return Some(&self.handlers[i].1);
            }
            i = i + 1;
        }
        None
    }
}

impl<H> Default for Server<H> {
    fn default() -> (s: Self)
        ensures
            s.handlers() == Map::<Seq<char>, Handler<H>>::empty().insert(
                METHOD_ECHO@,
                Handler::Echo,
            ),
    {
        Self::new()
    }
}

/// Whether `r` is the response that `outcome`, a handler's answer to
/// call `id`, turns into: the handler's own response, or an error
/// response to `id` whose message is the text of an RPC error, or the
/// message of any other error.
pub open spec fn is_outcome_response(r: Response, id: u64, outcome: CoreResult<Response>) -> bool {
    match outcome {
        Ok(resp) => r == resp,
        Err(CoreError::Rpc(msg)) => is_err_response(r, id, msg@),
        Err(e) => {
            &&& r.id == id
            &&& r.result is None
            &&& r.error matches Some(m) && e.is_message(m@)
        },
    }
}

/// Text of the error answer to a request for a method nobody registered.
pub open spec fn unknown_method_text(method: Seq<char>) -> Seq<char> {
    "unknown method: "@ + method
}

/// Turn a handler's answer to call `id` into the response sent back.
pub fn outcome_response(id: u64, outcome: CoreResult<Response>) -> (r: Response)
    ensures
        is_outcome_response(r, id, outcome),
{
    match outcome {
        Ok(resp) => resp,
        Err(CoreError::Rpc(msg)) => Response::err(id, msg),
        Err(e) => Response::err(id, e.message()),
    }
}

/// The built-in `echo` handler: answers with the parameters as an array.
fn echo(request: Request) -> (res: CoreResult<Response>)
    ensures
        res == Ok::<Response, CoreError>(
            ok_response(request.id, JsonValue::Array(request.params)),
        ),
{
    Ok(Response::ok(request.id, JsonValue::Array(request.params)))
}

/// Whether `r` is what dispatching `request` among `handlers` answers:
/// an unknown-method error when no handler has the method's name, the
/// parameters as an array for `echo`, and otherwise the response that
/// an answer of the user's handler to the request turns into.
pub open spec fn is_dispatch_response<H: MethodHandler>(
    handlers: Map<Seq<char>, Handler<H>>,
    request: Request,
    r: Response,
) -> bool {
    match handlers.get(request.method@) {
        None => is_err_response(r, request.id, unknown_method_text(request.method@)),
        Some(Handler::Echo) => r == ok_response(request.id, JsonValue::Array(request.params)),
        Some(Handler::Custom(h)) => exists|outcome: CoreResult<Response>|
            h.answers(handlers, request, outcome) && is_outcome_response(
                r,
                request.id,
                outcome,
            ),
    }
}

/// Look up a handler for the request method and invoke it.
pub fn dispatch<H: MethodHandler>(server: &Server<H>, request: Request) -> (r: Response)
    ensures
        is_dispatch_response(server.handlers(), request, r),
{
    let id = request.id;
    match server.get(request.method.as_str()) {
        Some(Handler::Echo) => outcome_response(id, echo(request)),
        Some(Handler::Custom(h)) => {
            let ghost req = request;
            let outcome = h.call(server, request);
            let r = outcome_response(id, outcome);
            assert(h.answers(server.handlers(), req, outcome) && is_outcome_response(
                r,
                id,
                outcome,
            ));
            r
        },
        None => Response::err(id, String::from_str("unknown method: ").concat(request.method.as_str())),
    }
}

/// A fresh server answers `echo` with the request's parameters as an
/// array, and every other method with an unknown-method error carrying
/// the request's id.
pub proof fn lemma_fresh_server_dispatch<H: MethodHandler>(request: Request, r: Response)
    requires
        is_dispatch_response(
            Map::<Seq<char>, Handler<H>>::empty().insert(METHOD_ECHO@, Handler::Echo),
            request,
            r,
        ),
    ensures
        request.method@ == METHOD_ECHO@ ==> r == ok_response(
            request.id,
            JsonValue::Array(request.params),
        ),
        request.method@ != METHOD_ECHO@ ==> is_err_response(
            r,
            request.id,
            unknown_method_text(request.method@),
        ),
{
}

/// Registering a handler under a name sends requests for that name to
/// the new handler; requests for every other name go to the handler they
/// went to before, which then runs in the server with the new entry.
pub proof fn lemma_register_then_dispatch<H: MethodHandler>(
    handlers: Map<Seq<char>, Handler<H>>,
    name: Seq<char>,
    handler: Handler<H>,
    request: Request,
    r: Response,
)
    ensures
        request.method@ == name ==> (is_dispatch_response(handlers.insert(name, handler), request, r)
            <==> match handler {
            Handler::Echo => r == ok_response(request.id, JsonValue::Array(request.params)),
            Handler::Custom(h) => exists|outcome: CoreResult<Response>|
                h.answers(handlers.insert(name, handler), request, outcome) && is_outcome_response(
                    r,
                    request.id,
                    outcome,
                ),
        }),
        request.method@ != name && !(handlers.get(request.method@) matches Some(
            Handler::Custom(_),
        )) ==> (is_dispatch_response(handlers.insert(name, handler), request, r)
            <==> is_dispatch_response(handlers, request, r)),
        request.method@ != name ==> (handlers.get(request.method@) matches Some(
            Handler::Custom(h),
        ) ==> (is_dispatch_response(handlers.insert(name, handler), request, r) <==> exists|
            outcome: CoreResult<Response>,
        |
            h.answers(handlers.insert(name, handler), request, outcome) && is_outcome_response(
                r,
                request.id,
                outcome,
            ))),
{
}

/// Unless a user's handler answers, the response to a dispatched request
/// carries the request's id.
pub proof fn lemma_dispatch_keeps_id<H: MethodHandler>(
    handlers: Map<Seq<char>, Handler<H>>,
    request: Request,
    r: Response,
)
    requires
        is_dispatch_response(handlers, request, r),
        !(handlers.get(request.method@) matches Some(Handler::Custom(_))),
    ensures
        r.id == request.id,
{
}

/// Whether `r` holds a result or an error, and not both.
pub open spec fn result_xor_error(r: Response) -> bool {
    r.result is Some != r.error is Some
}

/// Whether every `Ok` answer of every user's handler among `handlers`
/// holds a result or an error, and not both.
pub open spec fn handlers_keep_exclusive<H: MethodHandler>(
    handlers: Map<Seq<char>, Handler<H>>,
) -> bool {
    forall|name: Seq<char>, request: Request, outcome: CoreResult<Response>|
        #[trigger] user_answers(handlers, handlers.get(name), request, outcome) ==> (outcome matches Ok(
            resp,
        ) ==> result_xor_error(resp))
}

/// Whether `entry` is a user's handler that may answer `request` with
/// `outcome` in a server whose handlers are `handlers`.
pub open spec fn user_answers<H: MethodHandler>(
    handlers: Map<Seq<char>, Handler<H>>,
    entry: Option<Handler<H>>,
    request: Request,
    outcome: CoreResult<Response>,
) -> bool {
    entry matches Some(Handler::Custom(h)) && h.answers(handlers, request, outcome)
}

/// A dispatched response holds a result or an error, never both, as
/// long as the user's handlers answer that way.
pub proof fn lemma_dispatch_result_xor_error<H: MethodHandler>(
    handlers: Map<Seq<char>, Handler<H>>,
    request: Request,
    r: Response,
)
    requires
        is_dispatch_response(handlers, request, r),
        handlers_keep_exclusive(handlers),
    ensures
        result_xor_error(r),
{
    if let Some(Handler::Custom(h)) = handlers.get(request.method@) {
        let outcome = choose|outcome: CoreResult<Response>|
            h.answers(handlers, request, outcome) && is_outcome_response(r, request.id, outcome);
        assert(user_answers(handlers, handlers.get(request.method@), request, outcome));
    }
}

/// A user's handler runs in the server the request is dispatched on:
/// when the handler's answer to the request in a server with exactly
/// these handlers is `outcome`, the response is what `outcome` turns
/// into, whatever the handler would answer in any other server.
pub proof fn lemma_handler_runs_in_dispatching_server<H: MethodHandler>(
    handlers: Map<Seq<char>, Handler<H>>,
    request: Request,
    r: Response,
    h: H,
    outcome: CoreResult<Response>,
)
    requires
        is_dispatch_response(handlers, request, r),
        handlers.get(request.method@) == Some(Handler::Custom(h)),
        forall|o: CoreResult<Response>| #[trigger] h.answers(handlers, request, o) ==> o == outcome,
    ensures
        is_outcome_response(r, request.id, outcome),
{
    let o = choose|o: CoreResult<Response>|
        h.answers(handlers, request, o) && is_outcome_response(r, request.id, o);
    assert(h.answers(handlers, request, o));
}

} // verus!
