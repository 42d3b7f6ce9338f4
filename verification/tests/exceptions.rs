use lithium::api::Outcome;
use lithium::stacked_exceptions::{pop, push, replace_last, Exception, ExceptionStack};
use lithium::{catch, intercept, throw, InFlightException};

#[test]
fn exception_cause() {
    let mut ex = Exception::new(String::from("Hello, world!"));
    assert_eq!(ex.cause(), "Hello, world!");
}

#[test]
fn stack() {
    let mut st = ExceptionStack::new();
    let (ex1, mut rec1) = push(&mut st, String::from("Hello, world!"));
    let (ex2, mut rec2) = push(&mut st, 123i32);
    assert_eq!(rec2.cause(), 123);
    let (ex3, mut rec3) = replace_last::<i32, &str>(&mut st, ex2, "Third time's a charm");
    assert_eq!(rec3.cause(), "Third time's a charm");
    pop::<&str>(&mut st, ex3);
    assert_eq!(rec1.cause(), "Hello, world!");
    pop::<String>(&mut st, ex1);
    assert_eq!(st.stack.depth, 0);
}

#[test]
fn catch_ok() {
    let mut st = ExceptionStack::new();
    let result: Result<String, ()> = catch(&mut st, Outcome::Returned(String::from(
        "Hello, world!",
    )));
    assert_eq!(result.unwrap(), "Hello, world!");
}

#[test]
fn catch_err() {
    let mut st = ExceptionStack::new();
    let raised = throw(&mut st, String::from("Hello, world!"));
    let result: Result<(), String> = catch(&mut st, Outcome::Thrown(raised));
    assert_eq!(result.unwrap_err(), "Hello, world!");
}

#[test]
fn api_rethrow() {
    let mut st = ExceptionStack::new();
    let raised = throw(&mut st, String::from("Hello, world!"));
    let (err, in_flight): (String, InFlightException<String>) =
        intercept::<(), String>(&mut st, Outcome::Thrown(raised)).unwrap_err();
    let raised = in_flight.rethrow(&mut st, err + " You look nice btw.");
    let result: Result<(), String> = catch(&mut st, Outcome::Thrown(raised));
    assert_eq!(result.unwrap_err(), "Hello, world! You look nice btw.");
}

#[test]
fn intercept_ok() {
    let mut st = ExceptionStack::new();
    let result = intercept::<String, ()>(&mut st, Outcome::Returned(String::from(
        "Hello, world!",
    )));
    assert_eq!(result.unwrap(), "Hello, world!");
}

#[test]
fn intercept_err() {
    let mut st = ExceptionStack::new();
    let raised = throw(&mut st, String::from("Hello, world!"));
    let result = intercept::<(), String>(&mut st, Outcome::Thrown(raised));
    let (caught_ex, handle) = result.unwrap_err();
    assert_eq!(caught_ex, "Hello, world!");
    handle.dismiss(&mut st);
}

#[test]
fn nested_intercept() {
    let mut st = ExceptionStack::new();
    let raised = throw(&mut st, String::from("Hello, world!"));
    let inner = intercept::<(), String>(&mut st, Outcome::Thrown(raised));
    let result = intercept::<_, ()>(&mut st, Outcome::Returned(inner));
    let (caught_ex, handle) = result.unwrap().unwrap_err();
    assert_eq!(caught_ex, "Hello, world!");
    handle.dismiss(&mut st);
}

#[test]
fn mod_rethrow() {
    let mut st = ExceptionStack::new();
    let raised = throw(&mut st, String::from("Hello, world!"));
    let (ex2, handle) = intercept::<(), String>(&mut st, Outcome::Thrown(raised)).unwrap_err();
    assert_eq!(ex2, "Hello, world!");
    let raised = handle.rethrow(&mut st, ex2);
    let (caught_ex, outer) = intercept::<(), String>(&mut st, Outcome::Thrown(raised))
        .unwrap_err();
    assert_eq!(caught_ex, "Hello, world!");
    outer.dismiss(&mut st);
}

#[test]
fn nested_with_drop() {
    let mut st = ExceptionStack::new();
    // An exception unwinds...
    let r1 = throw::<String>(&mut st, String::from("Hello, world!"));
    // ...and a destructor run by the unwinding raises and fully handles an
    // exception of its own, nested within the first.
    let r2 = throw::<String>(&mut st, String::from("Awful idea"));
    let (caught_ex2, h2) = intercept::<(), String>(&mut st, Outcome::Thrown(r2)).unwrap_err();
    assert_eq!(caught_ex2, "Awful idea");
    h2.dismiss(&mut st);
    // The original exception reaches the enclosing frame intact.
    let (caught_ex1, h1) = intercept::<(), String>(&mut st, Outcome::Thrown(r1)).unwrap_err();
    assert_eq!(caught_ex1, "Hello, world!");
    h1.dismiss(&mut st);
    assert_eq!(st.stack.depth, 0);
}

#[test]
fn in_flight_nested_intercept() {
    let mut st = ExceptionStack::new();
    // Intercept a raise and keep its handle in flight.
    let r1 = throw(&mut st, 1i32);
    let (c1, h1) = intercept::<(), i32>(&mut st, Outcome::Thrown(r1)).unwrap_err();
    assert_eq!(c1, 1);
    // While the handle is live, a nested frame — a destructor, say — raises
    // and intercepts an exception of its own.
    let r2 = throw(&mut st, String::from("Literally so insanely suspicious"));
    let (c2, h2) = intercept::<(), String>(&mut st, Outcome::Thrown(r2)).unwrap_err();
    assert_eq!(c2, "Literally so insanely suspicious");
    // The handles go in reverse creation order: inner first, then outer.
    h2.dismiss(&mut st);
    h1.dismiss(&mut st);
    assert_eq!(st.stack.depth, 0);
}
