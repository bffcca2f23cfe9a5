use std::cell::RefCell;
use std::rc::Rc;

use surrealdb::{Command, Error, Router, Surreal, Use};

/// A router that records every command it is handed and answers each with a
/// fixed result.
#[derive(Clone)]
struct Recorder {
    log: Rc<RefCell<Vec<Command>>>,
    answer: Result<(), Error>,
}

impl Recorder {
    fn answering(answer: Result<(), Error>) -> Recorder {
        Recorder { log: Rc::new(RefCell::new(Vec::new())), answer }
    }

    fn submitted(&self) -> Vec<Command> {
        self.log.borrow().clone()
    }
}

impl Router for Recorder {
    fn execute_unit(&self, command: Command) -> Result<(), Error> {
        self.log.borrow_mut().push(command);
        self.answer.clone()
    }
}

fn switch(ns: Option<&str>, db: Option<&str>, session: Option<&str>) -> Command {
    Command::Use {
        namespace: ns.map(String::from),
        database: db.map(String::from),
        session_id: session.map(String::from),
    }
}

#[test]
fn builder_with_no_calls_submits_all_unset() {
    let router = Recorder::answering(Ok(()));
    let db = Surreal::with_router(router.clone());
    let result = Use::new(&db).into_future().run();
    assert_eq!(result, Ok(()));
    assert_eq!(router.submitted(), vec![switch(None, None, None)]);
}

#[test]
fn namespace_and_database_are_submitted() {
    let router = Recorder::answering(Ok(()));
    let db = Surreal::with_router(router.clone());
    let result = Use::new(&db).use_ns("app").use_db("prod").into_future().run();
    assert_eq!(result, Ok(()));
    assert_eq!(router.submitted(), vec![switch(Some("app"), Some("prod"), None)]);
}

#[test]
fn never_connected_handle_returns_not_connected() {
    let db: Surreal<Recorder> = Surreal::init();
    assert!(!db.is_connected());
    let result = Use::new(&db).use_ns("app").use_db("prod").use_session("s1").into_future().run();
    assert_eq!(result, Err(Error::NotConnected));
}

#[test]
fn unbound_handle_submits_nothing_and_builds_no_command() {
    let router = Recorder::answering(Ok(()));
    let db: Surreal<Recorder> = Surreal::init();
    let pending = Use::new(&db).use_db("prod").into_future();
    assert!(matches!(pending.resolve(), Err(Error::NotConnected)));
    assert_eq!(pending.run(), Err(Error::NotConnected));
    assert!(router.submitted().is_empty());
}

#[test]
fn bound_router_gets_exactly_one_command() {
    let router = Recorder::answering(Ok(()));
    let db = Surreal::with_router(router.clone());
    assert!(db.is_connected());
    let pending = Use::new(&db).use_ns("ns").use_db("db").use_session("abc").into_future();
    assert!(router.submitted().is_empty());
    assert_eq!(pending.run(), Ok(()));
    assert_eq!(router.submitted(), vec![switch(Some("ns"), Some("db"), Some("abc"))]);
}

#[test]
fn backend_error_is_returned_verbatim() {
    let refusal = Error::BackendRejected(String::from("unknown namespace"));
    let router = Recorder::answering(Err(refusal.clone()));
    let db = Surreal::with_router(router.clone());
    let result = Use::new(&db).use_ns("missing").into_future().run();
    assert_eq!(result, Err(refusal));
    assert_eq!(router.submitted(), vec![switch(Some("missing"), None, None)]);
}

#[test]
fn last_write_wins_within_a_field() {
    let db = Surreal::with_router(Recorder::answering(Ok(())));
    let builder = Use::new(&db).use_db("first").use_ns("app").use_db("second").use_db("third");
    assert_eq!(builder.to_command(), switch(Some("app"), Some("third"), None));
}

#[test]
fn distinct_fields_commute() {
    let db = Surreal::with_router(Recorder::answering(Ok(())));
    let a = Use::new(&db).use_ns("n").use_db("d").use_session("s").to_command();
    let b = Use::new(&db).use_session("s").use_db("d").use_ns("n").to_command();
    assert_eq!(a, b);
    assert_eq!(a, switch(Some("n"), Some("d"), Some("s")));
}

#[test]
fn repeated_call_is_idempotent() {
    let db = Surreal::with_router(Recorder::answering(Ok(())));
    let once = Use::new(&db).use_session("s").to_command();
    let twice = Use::new(&db).use_session("s").use_session("s").to_command();
    assert_eq!(once, twice);
    assert_eq!(once, switch(None, None, Some("s")));
}

#[test]
fn owned_builder_behaves_as_borrowed() {
    let router = Recorder::answering(Ok(()));
    let db = Surreal::with_router(router.clone());
    let borrowed = Use::new(&db).use_ns("app").use_db("prod").into_future().run();
    let owned: Use<'static, Recorder> = Use::new(&db).use_ns("app").into_owned();
    let owned = owned.use_db("prod").into_future().run();
    assert_eq!(borrowed, owned);
    let expected = switch(Some("app"), Some("prod"), None);
    assert_eq!(router.submitted(), vec![expected.clone(), expected]);
}

#[test]
fn owned_builder_on_unbound_handle_is_not_connected() {
    let db: Surreal<Recorder> = Surreal::init();
    let owned = Use::new(&db).use_session("s").into_owned();
    assert_eq!(owned.into_future().run(), Err(Error::NotConnected));
}

#[test]
fn builder_owning_its_handle() {
    let router = Recorder::answering(Ok(()));
    let builder = Use::new_owned(Surreal::with_router(router.clone()));
    assert_eq!(builder.use_session("x").into_future().run(), Ok(()));
    assert_eq!(router.submitted(), vec![switch(None, None, Some("x"))]);
}

#[test]
fn cloned_handle_shares_the_router_state() {
    let router = Recorder::answering(Ok(()));
    let db = Surreal::with_router(router.clone());
    let copy = db.clone();
    assert!(copy.is_connected());
    assert_eq!(Use::new(&copy).use_db("d").into_future().run(), Ok(()));
    assert_eq!(router.submitted(), vec![switch(None, Some("d"), None)]);
}

#[test]
fn resolve_on_bound_handle_gives_router_and_command() {
    let db = Surreal::with_router(Recorder::answering(Ok(())));
    let pending = Use::new(&db).use_ns("a").into_future();
    let (_, command) = pending.resolve().expect("router is bound");
    assert_eq!(command, switch(Some("a"), None, None));
}

#[test]
fn router_lookup_on_handle() {
    let unbound: Surreal<Recorder> = Surreal::init();
    assert!(matches!(unbound.router(), Err(Error::NotConnected)));
    let bound = Surreal::with_router(Recorder::answering(Ok(())));
    assert!(bound.router().is_ok());
}
