//! The operations that find out the kind of a link by themselves.

use std::cell::Cell;

use symlink::{remove_symlink_auto, symlink_auto, Call, Pending, Step, Strategy};

#[derive(Debug, PartialEq)]
enum Fault {
    NotFound,
    Denied,
}

#[test]
fn creation_inspects_the_destination_not_the_source() {
    let pending = Pending::Create { target: "source", link: "destination" };
    assert_eq!(*pending.subject(), "destination");
    match symlink_auto(Strategy::Windows, "source", "destination") {
        Step::Inspect(pending) => assert_eq!(*pending.subject(), "destination"),
        Step::Perform(call) => panic!("performed {:?} without a query", call),
    }
}

#[test]
fn removal_inspects_its_path() {
    let pending = Pending::Remove { path: "link" };
    assert_eq!(*pending.subject(), "link");
}

#[test]
fn creation_at_a_plain_file_makes_a_file_link() {
    let pending = Pending::Create { target: "source", link: "destination" };
    assert_eq!(
        pending.resume::<Fault>(Ok(false)),
        Ok(Call::SymlinkFile { target: "source", link: "destination" })
    );
}

#[test]
fn creation_at_a_directory_makes_a_directory_link() {
    let pending = Pending::Create { target: "source", link: "destination" };
    assert_eq!(
        pending.resume::<Fault>(Ok(true)),
        Ok(Call::SymlinkDir { target: "source", link: "destination" })
    );
}

#[test]
fn creation_fails_where_the_destination_is_missing() {
    let pending = Pending::Create { target: "source", link: "destination" };
    assert_eq!(pending.resume(Err(Fault::NotFound)), Err(Fault::NotFound));
}

#[test]
fn creation_fails_where_metadata_is_denied() {
    let pending = Pending::Create { target: "source", link: "destination" };
    assert_eq!(pending.resume(Err(Fault::Denied)), Err(Fault::Denied));
}

#[test]
fn removal_of_a_file_link_deletes_a_file() {
    let pending = Pending::Remove { path: "link" };
    assert_eq!(pending.resume::<Fault>(Ok(false)), Ok(Call::RemoveFile { path: "link" }));
}

#[test]
fn removal_of_a_directory_link_deletes_a_directory() {
    let pending = Pending::Remove { path: "link" };
    assert_eq!(pending.resume::<Fault>(Ok(true)), Ok(Call::RemoveDir { path: "link" }));
}

#[test]
fn removal_fails_where_the_path_is_missing() {
    let pending = Pending::Remove { path: "link" };
    assert_eq!(pending.resume(Err(Fault::NotFound)), Err(Fault::NotFound));
}

#[test]
fn run_performs_a_ready_call_without_a_query() {
    let queries = Cell::new(0u32);
    let performed = Cell::new(None);
    let outcome = symlink_auto(Strategy::Unix, "missing", "link").run(
        |_path| {
            queries.set(queries.get() + 1);
            Err(Fault::NotFound)
        },
        |call| {
            performed.set(Some(call));
            Ok(())
        },
    );
    assert_eq!(outcome, Ok(()));
    assert_eq!(queries.get(), 0);
    assert_eq!(performed.take(), Some(Call::Symlink { target: "missing", link: "link" }));
}

#[test]
fn run_returns_the_error_of_the_call() {
    let outcome = remove_symlink_auto(Strategy::Fallback, "link")
        .run(|_path| Ok(true), |_call| Err(Fault::Denied));
    assert_eq!(outcome, Err(Fault::Denied));
}

#[test]
fn run_queries_the_subject_then_performs() {
    let asked = Cell::new(None);
    let performed = Cell::new(None);
    let outcome = symlink_auto(Strategy::Windows, "source", "destination").run(
        |path: &&str| {
            asked.set(Some(*path));
            Ok::<bool, Fault>(true)
        },
        |call| {
            performed.set(Some(call));
            Ok(())
        },
    );
    assert_eq!(outcome, Ok(()));
    assert_eq!(asked.get(), Some("destination"));
    assert_eq!(
        performed.take(),
        Some(Call::SymlinkDir { target: "source", link: "destination" })
    );
}

#[test]
fn run_follows_the_answer_of_the_host() {
    let performed = Cell::new(None);
    let outcome = remove_symlink_auto(Strategy::Windows, "link").run(
        |_path| Ok::<bool, Fault>(false),
        |call| {
            performed.set(Some(call));
            Ok(())
        },
    );
    assert_eq!(outcome, Ok(()));
    assert_eq!(performed.take(), Some(Call::RemoveFile { path: "link" }));
}

#[test]
fn run_stops_at_a_failed_query() {
    let calls = Cell::new(0u32);
    let outcome = symlink_auto(Strategy::Windows, "source", "nowhere").run(
        |_path| Err(Fault::NotFound),
        |_call| {
            calls.set(calls.get() + 1);
            Ok(())
        },
    );
    assert_eq!(outcome, Err(Fault::NotFound));
    assert_eq!(calls.get(), 0);
}

#[test]
fn run_returns_the_error_of_the_call_after_a_query() {
    let outcome = remove_symlink_auto(Strategy::Windows, "link")
        .run(|_path| Ok(true), |_call| Err(Fault::Denied));
    assert_eq!(outcome, Err(Fault::Denied));
}
