use service_kit::{service_fn, Request, Response, Service, ServiceFn};
use std::cell::Cell;
use std::future::{ready, Future, Ready};
use std::pin::Pin;
use std::rc::Rc;
use std::task::{Context, Poll, Waker};

type Reply = Ready<Result<Response<String>, String>>;

fn request(path: &str, body: &str) -> Request<String> {
    Request { path: path.to_string(), body: body.to_string() }
}

fn wait_for<F: Future>(fut: F) -> F::Output {
    let mut fut = Box::pin(fut);
    let mut cx = Context::from_waker(Waker::noop());
    loop {
        if let Poll::Ready(out) = fut.as_mut().poll(&mut cx) {
            return out;
        }
    }
}

fn shout(req: Request<String>) -> Reply {
    ready(Ok(Response { body: format!("{}!{}", req.path, req.body) }))
}

fn refuse(req: Request<String>) -> Reply {
    ready(Err(format!("no handler for {}", req.path)))
}

/// A future that is pending once and counts how often it is polled.
struct Slow {
    polls: Rc<Cell<u32>>,
    body: String,
}

impl Future for Slow {
    type Output = Result<Response<String>, String>;

    fn poll(self: Pin<&mut Self>, cx: &mut Context<'_>) -> Poll<Self::Output> {
        let seen = self.polls.get();
        self.polls.set(seen + 1);
        if seen == 0 {
            cx.waker().wake_by_ref();
            Poll::Pending
        } else {
            Poll::Ready(Ok(Response { body: self.body.clone() }))
        }
    }
}

#[test]
fn call_yields_what_the_callable_yields() {
    let direct = shout(request("/a", "x")).into_inner();
    let mut service = service_fn(shout);
    let through = service.call(request("/a", "x")).into_inner();
    assert_eq!(through, direct);
    assert_eq!(through, Ok(Response { body: "/a!x".to_string() }));
}

#[test]
fn call_hands_over_path_and_body_untouched() {
    let mut service = service_fn(|req: Request<Vec<u8>>| {
        ready(Ok::<Response<Vec<u8>>, String>(Response { body: [req.path.as_bytes(), &req.body[..]].concat() }))
    });
    let req = Request { path: "/p".to_string(), body: vec![0u8, 255u8] };
    let out = service.call(req).into_inner();
    assert_eq!(out, Ok(Response { body: vec![b'/', b'p', 0u8, 255u8] }));
}

#[test]
fn error_of_the_callable_comes_back_unchanged() {
    let direct = refuse(request("/missing", "")).into_inner();
    let mut service = service_fn(refuse);
    let through = service.call(request("/missing", "")).into_inner();
    assert_eq!(through, direct);
    assert_eq!(through, Err("no handler for /missing".to_string()));
}

#[test]
fn success_and_failure_of_one_callable_both_pass_through() {
    let mut service = service_fn(|req: Request<String>| {
        if req.path == "/ok" {
            ready(Ok(Response { body: req.body }))
        } else {
            ready(Err(req.path))
        }
    });
    assert_eq!(
        service.call(request("/ok", "fine")).into_inner(),
        Ok(Response { body: "fine".to_string() })
    );
    assert_eq!(service.call(request("/bad", "fine")).into_inner(), Err("/bad".to_string()));
}

#[test]
fn async_callable_resolves_to_its_own_result() {
    let mut service = service_fn(|req: Request<String>| async move {
        Ok::<Response<String>, String>(Response { body: req.path })
    });
    let out = wait_for(service.call(request("/later", "")));
    assert_eq!(out, Ok(Response { body: "/later".to_string() }));
}

#[test]
fn call_returns_the_future_without_polling_it() {
    let calls = Rc::new(Cell::new(0u32));
    let polls = Rc::new(Cell::new(0u32));
    let (calls_in, polls_in) = (calls.clone(), polls.clone());
    let mut service = service_fn(move |req: Request<String>| {
        calls_in.set(calls_in.get() + 1);
        Slow { polls: polls_in.clone(), body: req.path }
    });
    let fut = service.call(request("/slow", ""));
    assert_eq!(calls.get(), 1);
    assert_eq!(polls.get(), 0);
    let out = wait_for(fut);
    assert_eq!(out, Ok(Response { body: "/slow".to_string() }));
    assert_eq!(calls.get(), 1);
    assert_eq!(polls.get(), 2);
}

#[test]
fn stateful_callable_keeps_its_state_between_calls() {
    let mut seen = 0u32;
    let mut service = service_fn(move |req: Request<String>| {
        seen += 1;
        ready(Ok::<Response<String>, String>(Response { body: format!("{}#{}", req.path, seen) }))
    });
    assert_eq!(service.call(request("/n", "")).into_inner(), Ok(Response { body: "/n#1".to_string() }));
    assert_eq!(service.call(request("/n", "")).into_inner(), Ok(Response { body: "/n#2".to_string() }));
    assert_eq!(service.call(request("/m", "")).into_inner(), Ok(Response { body: "/m#3".to_string() }));
}

#[test]
fn duplicate_answers_as_its_source_does() {
    let mut source = service_fn(shout);
    let mut duplicate = source.clone();
    let first = source.call(request("/a", "b")).into_inner();
    let second = source.call(request("/a", "b")).into_inner();
    let from_duplicate = duplicate.call(request("/a", "b")).into_inner();
    let from_source = source.call(request("/a", "b")).into_inner();
    assert_eq!((from_source.clone(), from_duplicate), (first, second));
    assert_eq!(from_source, Ok(Response { body: "/a!b".to_string() }));
}

#[test]
fn duplicate_of_a_failing_adapter_fails_alike() {
    let mut source = service_fn(refuse);
    let mut duplicate = source.clone();
    assert_eq!(
        duplicate.call(request("/x", "")).into_inner(),
        source.call(request("/x", "")).into_inner()
    );
    assert_eq!(duplicate.call(request("/x", "")).into_inner(), Err("no handler for /x".to_string()));
}

#[test]
fn duplicate_has_its_own_copy_of_owned_state() {
    let mut seen = 0u32;
    let mut source = service_fn(move |_req: Request<String>| {
        seen += 1;
        ready(Ok::<Response<String>, String>(Response { body: seen.to_string() }))
    });
    assert_eq!(source.call(request("/", "")).into_inner(), Ok(Response { body: "1".to_string() }));
    let mut duplicate = source.clone();
    assert_eq!(source.call(request("/", "")).into_inner(), Ok(Response { body: "2".to_string() }));
    assert_eq!(source.call(request("/", "")).into_inner(), Ok(Response { body: "3".to_string() }));
    assert_eq!(duplicate.call(request("/", "")).into_inner(), Ok(Response { body: "2".to_string() }));
}

#[test]
fn duplicate_shares_state_that_is_made_to_be_shared() {
    let seen = Rc::new(Cell::new(0u32));
    let seen_in = seen.clone();
    let mut source = service_fn(move |_req: Request<String>| {
        seen_in.set(seen_in.get() + 1);
        ready(Ok::<Response<String>, String>(Response { body: seen_in.get().to_string() }))
    });
    let mut duplicate = source.clone();
    assert_eq!(source.call(request("/", "")).into_inner(), Ok(Response { body: "1".to_string() }));
    assert_eq!(duplicate.call(request("/", "")).into_inner(), Ok(Response { body: "2".to_string() }));
    assert_eq!(seen.get(), 2);
}

#[test]
fn adapter_of_a_copyable_callable_is_copied_by_value() {
    let source: ServiceFn<fn(Request<String>) -> Reply, String> = service_fn(shout);
    let mut first = source;
    let mut second = source;
    assert_eq!(first.call(request("/c", "1")).into_inner(), Ok(Response { body: "/c!1".to_string() }));
    assert_eq!(second.call(request("/c", "2")).into_inner(), Ok(Response { body: "/c!2".to_string() }));
}

#[test]
fn debug_shows_a_handler_and_nothing_of_the_callable() {
    let secret = "hidden".to_string();
    let service = service_fn(move |_req: Request<String>| {
        ready(Ok::<Response<String>, String>(Response { body: secret.clone() }))
    });
    assert_eq!(format!("{:?}", service), "impl Service");
    assert_eq!(format!("{:#?}", service), "impl Service");
    assert_eq!(format!("[{:?}] [{:?}]", service, service), "[impl Service] [impl Service]");
}

#[test]
fn adapters_of_different_callables_are_driven_through_one_interface() {
    fn drive<S>(service: &mut S, path: &str) -> Result<Response<String>, String>
    where
        S: Service<Request<String>, Response = Response<String>, Error = String>,
    {
        wait_for(service.call(Request { path: path.to_string(), body: String::new() }))
    }
    let mut plain = service_fn(shout);
    let mut failing = service_fn(refuse);
    let mut later = service_fn(|req: Request<String>| async move {
        Ok::<Response<String>, String>(Response { body: req.path.to_uppercase() })
    });
    assert_eq!(drive(&mut plain, "/a"), Ok(Response { body: "/a!".to_string() }));
    assert_eq!(drive(&mut failing, "/a"), Err("no handler for /a".to_string()));
    assert_eq!(drive(&mut later, "/a"), Ok(Response { body: "/A".to_string() }));
}

#[test]
fn messages_are_duplicated_field_by_field() {
    let req = Request { path: "/dup".to_string(), body: vec![1u8, 2u8, 3u8] };
    let again = req.clone();
    assert_eq!(again.path, "/dup");
    assert_eq!(again.body, vec![1u8, 2u8, 3u8]);
    assert_eq!(again, req);
    let res = Response { body: "kept".to_string() };
    assert_eq!(res.clone(), Response { body: "kept".to_string() });
    assert_eq!(res.clone(), res);
}
