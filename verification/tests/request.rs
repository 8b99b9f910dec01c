use free_junc::error::{RequestError, UsageError};
use free_junc::path::NativePath;
use free_junc::request::{parse_request, Request};
use free_junc::text::decimal;

fn native(text: &str) -> NativePath {
    NativePath::new(text.encode_utf16().collect())
}

fn natives(texts: &[&str]) -> Vec<NativePath> {
    texts.iter().map(|text| native(text)).collect()
}

#[test]
fn no_arguments_ask_for_the_usage_text() {
    assert_eq!(parse_request(false, false, false, Vec::new()), Ok(None));
    assert_eq!(parse_request(false, true, true, Vec::new()), Ok(None));
}

#[test]
fn one_path_lists() {
    assert_eq!(
        parse_request(false, false, false, natives(&["/r"])),
        Ok(Some(Request::List { path: native("/r"), quiet: false, recursive: false }))
    );
    assert_eq!(
        parse_request(false, true, false, natives(&["/r"])),
        Ok(Some(Request::List { path: native("/r"), quiet: true, recursive: false }))
    );
    assert_eq!(
        parse_request(false, false, true, natives(&["/r"])),
        Ok(Some(Request::List { path: native("/r"), quiet: false, recursive: true }))
    );
}

#[test]
fn two_paths_create_in_the_order_given() {
    assert_eq!(
        parse_request(false, false, false, natives(&["/r/b", "/r/x"])),
        Ok(Some(Request::Create { source: native("/r/b"), destination: native("/r/x") }))
    );
}

#[test]
fn delete_flag_with_one_path_deletes() {
    assert_eq!(
        parse_request(true, false, false, natives(&["/r/b"])),
        Ok(Some(Request::Delete { path: native("/r/b") }))
    );
    assert_eq!(
        parse_request(true, true, true, natives(&["/r/b"])),
        Ok(Some(Request::Delete { path: native("/r/b") }))
    );
}

#[test]
fn delete_needs_exactly_one_path() {
    let none = parse_request(true, false, false, Vec::new());
    assert_eq!(none, Err(RequestError::UsageError(UsageError::DeleteArity(0))));
    assert_eq!(
        none.unwrap_err().message(),
        "expected exactly 1 path to junction to delete, got 0"
    );
    let two = parse_request(true, false, false, natives(&["/a", "/b"]));
    assert_eq!(two, Err(RequestError::UsageError(UsageError::DeleteArity(2))));
    assert_eq!(
        two.unwrap_err().message(),
        "expected exactly 1 path to junction to delete, got 2"
    );
}

#[test]
fn listing_flags_do_not_go_with_two_paths() {
    for (quiet, recursive) in [(true, false), (false, true), (true, true)] {
        let result = parse_request(false, quiet, recursive, natives(&["/a", "/b"]));
        assert_eq!(result, Err(RequestError::UsageError(UsageError::StrayListFlags)));
        assert_eq!(result.unwrap_err().message(), "q and s are for a different subcommand");
    }
}

#[test]
fn too_many_paths_for_a_listing() {
    let result = parse_request(false, true, false, natives(&["/a", "/b", "/c"]));
    assert_eq!(result, Err(RequestError::UsageError(UsageError::ListArity(3))));
    assert_eq!(
        result.unwrap_err().message(),
        "expected exactly 1 path to display junction information, got 3"
    );
}

#[test]
fn too_many_paths_for_a_creation() {
    let paths: Vec<NativePath> = (0..12).map(|_| native("/p")).collect();
    let result = parse_request(false, false, false, paths);
    assert_eq!(result, Err(RequestError::UsageError(UsageError::CreateArity(12))));
    assert_eq!(
        result.unwrap_err().message(),
        "expected exactly 2 paths to create junction, got 12"
    );
}

#[test]
fn numbers_are_written_in_decimal() {
    assert_eq!(decimal(0), "0");
    assert_eq!(decimal(7), "7");
    assert_eq!(decimal(9), "9");
    assert_eq!(decimal(10), "10");
    assert_eq!(decimal(109), "109");
    assert_eq!(decimal(12345), "12345");
    assert_eq!(decimal(usize::MAX), format!("{}", usize::MAX));
}
