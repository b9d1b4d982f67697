use arangors::document::{
    DocumentInsertOptions, DocumentOverwriteMode, DocumentReadOptions, DocumentRemoveOptions,
    DocumentReplaceOptions, DocumentUpdateOptions,
};
use arangors::error::{ClientError, TransportError};
use arangors::request::{
    create_document_request, headers_of, make_header_from_options, make_if_match_header,
    read_document_request, remove_document_request, replace_document_request,
    update_document_request, Method, WireRequest,
};
use arangors::target::{resolve, resolve_with_query, with_query, URL_PART_LIMIT};
use url::Url;

fn base() -> Url {
    Url::parse("http://localhost:8529/_db/mydb/_api/document/books/").unwrap()
}

fn pair(name: &str, value: &str) -> (String, String) {
    (name.to_string(), value.to_string())
}

#[test]
fn read_condition_becomes_one_header() {
    assert_eq!(
        make_header_from_options(DocumentReadOptions::IfMatch("_abc".to_string())),
        Some(pair("If-Match", "_abc"))
    );
    assert_eq!(
        make_header_from_options(DocumentReadOptions::IfNoneMatch("_abc".to_string())),
        Some(pair("If-None-Match", "_abc"))
    );
    assert_eq!(make_header_from_options(DocumentReadOptions::NoHeader), None);
}

#[test]
fn revision_is_passed_through_verbatim() {
    for revision in ["\"_Quoted-Rev\"", "_MiXeD_CaSe", " spaced ", "W/\"weak\"", "", "ünï\ncode"] {
        assert_eq!(
            make_header_from_options(DocumentReadOptions::IfMatch(revision.to_string())),
            Some(pair("If-Match", revision))
        );
        assert_eq!(
            make_header_from_options(DocumentReadOptions::IfNoneMatch(revision.to_string())),
            Some(pair("If-None-Match", revision))
        );
        assert_eq!(
            make_if_match_header(Some(revision.to_string())),
            Some(pair("If-Match", revision))
        );
    }
    assert_eq!(make_if_match_header(None), None);
}

#[test]
fn headers_hold_the_header_if_there_is_one() {
    assert_eq!(headers_of(None), vec![]);
    assert_eq!(headers_of(Some(pair("If-Match", "_r"))), vec![pair("If-Match", "_r")]);
}

#[test]
fn methods_have_their_wire_names() {
    assert_eq!(Method::Get.as_str(), "GET");
    assert_eq!(Method::Post.as_str(), "POST");
    assert_eq!(Method::Put.as_str(), "PUT");
    assert_eq!(Method::Patch.as_str(), "PATCH");
    assert_eq!(Method::Delete.as_str(), "DELETE");
}

#[test]
fn create_posts_to_the_collection() {
    assert_eq!(
        create_document_request(&base(), "{\"a\":1}".to_string(), Default::default()),
        Ok(WireRequest {
            method: Method::Post,
            url: "http://localhost:8529/_db/mydb/_api/document/books/?".to_string(),
            headers: vec![],
            body: "{\"a\":1}".to_string(),
        })
    );
    assert_eq!(
        create_document_request(
            &base(),
            "{}".to_string(),
            DocumentInsertOptions::builder()
                .return_new(true)
                .overwrite_mode(DocumentOverwriteMode::Replace)
                .build()
        ),
        Ok(WireRequest {
            method: Method::Post,
            url: "http://localhost:8529/_db/mydb/_api/document/books/?returnNew=true&overwriteMode=replace"
                .to_string(),
            headers: vec![],
            body: "{}".to_string(),
        })
    );
}

#[test]
fn read_gets_the_document_with_its_condition() {
    assert_eq!(
        read_document_request(&base(), "b1", DocumentReadOptions::NoHeader),
        Ok(WireRequest {
            method: Method::Get,
            url: "http://localhost:8529/_db/mydb/_api/document/books/b1".to_string(),
            headers: vec![],
            body: String::new(),
        })
    );
    assert_eq!(
        read_document_request(&base(), "b1", DocumentReadOptions::IfMatch("_r1".to_string())),
        Ok(WireRequest {
            method: Method::Get,
            url: "http://localhost:8529/_db/mydb/_api/document/books/b1".to_string(),
            headers: vec![pair("If-Match", "_r1")],
            body: String::new(),
        })
    );
    assert_eq!(
        read_document_request(&base(), "b1", DocumentReadOptions::IfNoneMatch("_r1".to_string())),
        Ok(WireRequest {
            method: Method::Get,
            url: "http://localhost:8529/_db/mydb/_api/document/books/b1".to_string(),
            headers: vec![pair("If-None-Match", "_r1")],
            body: String::new(),
        })
    );
}

#[test]
fn update_patches_with_the_patch_as_body() {
    assert_eq!(
        update_document_request(
            &base(),
            "b1",
            "{\"title\":null}".to_string(),
            DocumentUpdateOptions::builder().keep_null(false).return_old(true).build()
        ),
        Ok(WireRequest {
            method: Method::Patch,
            url: "http://localhost:8529/_db/mydb/_api/document/books/b1?returnOld=true&keepNull=false"
                .to_string(),
            headers: vec![],
            body: "{\"title\":null}".to_string(),
        })
    );
}

#[test]
fn replace_puts_with_if_match_only_when_given() {
    let options = DocumentReplaceOptions::builder().wait_for_sync(true).build();
    assert_eq!(
        replace_document_request(&base(), "b1", "{\"_rev\":\"_body\"}".to_string(), options, None),
        Ok(WireRequest {
            method: Method::Put,
            url: "http://localhost:8529/_db/mydb/_api/document/books/b1?waitForSync=true"
                .to_string(),
            headers: vec![],
            body: "{\"_rev\":\"_body\"}".to_string(),
        })
    );
    assert_eq!(
        replace_document_request(
            &base(),
            "b1",
            "{\"_rev\":\"_body\"}".to_string(),
            options,
            Some("_header".to_string())
        ),
        Ok(WireRequest {
            method: Method::Put,
            url: "http://localhost:8529/_db/mydb/_api/document/books/b1?waitForSync=true"
                .to_string(),
            headers: vec![pair("If-Match", "_header")],
            body: "{\"_rev\":\"_body\"}".to_string(),
        })
    );
}

#[test]
fn remove_deletes_without_a_body() {
    assert_eq!(
        remove_document_request(&base(), "b1", Default::default(), None),
        Ok(WireRequest {
            method: Method::Delete,
            url: "http://localhost:8529/_db/mydb/_api/document/books/b1?".to_string(),
            headers: vec![],
            body: String::new(),
        })
    );
    assert_eq!(
        remove_document_request(
            &base(),
            "b1",
            DocumentRemoveOptions::builder().return_old(true).silent(true).build(),
            Some("_r9".to_string())
        ),
        Ok(WireRequest {
            method: Method::Delete,
            url: "http://localhost:8529/_db/mydb/_api/document/books/b1?returnOld=true&silent=true"
                .to_string(),
            headers: vec![pair("If-Match", "_r9")],
            body: String::new(),
        })
    );
}

#[test]
fn a_key_that_does_not_resolve_has_no_request() {
    let unaddressable = Err(ClientError::Transport(TransportError::Unaddressable));
    let key = "http://[::1";
    assert_eq!(read_document_request(&base(), key, DocumentReadOptions::NoHeader), unaddressable);
    assert_eq!(
        update_document_request(&base(), key, "{}".to_string(), Default::default()),
        unaddressable
    );
    assert_eq!(
        replace_document_request(&base(), key, "{}".to_string(), Default::default(), None),
        unaddressable
    );
    assert_eq!(remove_document_request(&base(), key, Default::default(), None), unaddressable);
    let opaque = Url::parse("mailto:someone@example.org").unwrap();
    assert_eq!(
        create_document_request(&opaque, "{}".to_string(), Default::default()),
        unaddressable
    );
}

#[test]
fn keys_resolve_as_references() {
    let url = |key: &str| resolve(&base(), key).map(|u| u.to_string());
    assert_eq!(url(""), Some("http://localhost:8529/_db/mydb/_api/document/books/".to_string()));
    assert_eq!(url("k"), Some("http://localhost:8529/_db/mydb/_api/document/books/k".to_string()));
    assert_eq!(
        url("with space"),
        Some("http://localhost:8529/_db/mydb/_api/document/books/with%20space".to_string())
    );
    assert_eq!(url("../other/k"), Some("http://localhost:8529/_db/mydb/_api/document/other/k".to_string()));
    assert_eq!(url("http://[::1"), None);
    assert_eq!(Url::parse("mailto:a@b.c").ok().and_then(|u| resolve(&u, "k")), None);
}

#[test]
fn query_replaces_what_was_there() {
    let text = |url: Option<Url>| url.map(|u| u.to_string());
    assert_eq!(
        text(with_query(base(), "silent=true")),
        Some("http://localhost:8529/_db/mydb/_api/document/books/?silent=true".to_string())
    );
    assert_eq!(
        text(with_query(Url::parse("http://h/p?old=1#mark").unwrap(), "new=2")),
        Some("http://h/p?new=2#mark".to_string())
    );
    assert_eq!(text(with_query(Url::parse("http://h/p").unwrap(), "")), Some("http://h/p?".to_string()));
    assert_eq!(
        text(resolve_with_query(&base(), "k?own=1", "returnNew=true")),
        Some("http://localhost:8529/_db/mydb/_api/document/books/k?returnNew=true".to_string())
    );
    assert_eq!(text(resolve_with_query(&base(), "http://[::1", "returnNew=true")), None);
}

#[test]
fn a_query_beyond_the_limit_is_not_attached() {
    let long = "a".repeat(URL_PART_LIMIT);
    assert_eq!(with_query(base(), &long), None);
    assert_eq!(resolve_with_query(&base(), "k", &long), None);
    let fits = "a".repeat(1 << 16);
    assert_eq!(
        with_query(base(), &fits).map(|u| u.as_str().len()),
        Some(base().as_str().len() + 1 + fits.len())
    );
}
