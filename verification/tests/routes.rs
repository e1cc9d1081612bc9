use frper::response::{reply_for, Response};
use frper::routes::{error_reply, not_found_reply, Route};

#[test]
fn every_path_reaches_its_route() {
    assert_eq!(Route::from_path("/settings"), Route::Settings);
    assert_eq!(Route::from_path("/setting/update"), Route::SettingUpdate);
    assert_eq!(Route::from_path("/proxy"), Route::Proxies);
    assert_eq!(Route::from_path("/proxy/add"), Route::ProxyAdd);
    assert_eq!(Route::from_path("/proxy/edit"), Route::ProxyEdit);
    assert_eq!(Route::from_path("/proxy/delete"), Route::ProxyDelete);
    assert_eq!(Route::from_path("/proxy/enable"), Route::ProxyEnable);
    assert_eq!(Route::from_path("/export"), Route::Export);
    assert_eq!(Route::from_path("/version"), Route::Version);
}

#[test]
fn other_paths_are_not_found() {
    assert_eq!(Route::from_path(""), Route::NotFound);
    assert_eq!(Route::from_path("/proxy/"), Route::NotFound);
    assert_eq!(Route::from_path("/Settings"), Route::NotFound);
    assert_eq!(Route::from_path("settings"), Route::NotFound);
}

#[test]
fn failure_messages_per_route() {
    assert_eq!(Route::ProxyAdd.failure_message(), Some("新建失败"));
    assert_eq!(Route::ProxyDelete.failure_message(), Some("操作失败"));
    assert_eq!(Route::ProxyEnable.failure_message(), Some("操作失败"));
    assert_eq!(Route::ProxyEdit.failure_message(), None);
    assert_eq!(Route::Settings.failure_message(), None);
}

#[test]
fn reply_constructors() {
    let r = Response::new(404, None::<String>, "not found!");
    assert_eq!((r.code, r.data, r.msg), (404, None, "not found!"));
    let r = Response::ok(5usize, None);
    assert_eq!((r.code, r.data, r.msg), (200, 5, "操作成功"));
    let r = Response::ok(true, Some("done"));
    assert_eq!((r.code, r.data, r.msg), (200, true, "done"));
    let r = Response::fail("x", None);
    assert_eq!((r.code, r.data, r.msg), (300, "x", "操作失败"));
    let r = Response::fail((), Some("新建失败"));
    assert_eq!((r.code, r.msg), (300, "新建失败"));
}

#[test]
fn not_found_and_error_replies() {
    let r = not_found_reply();
    assert_eq!((r.code, r.data, r.msg), (404, None, "not found!"));
    let r = error_reply("database is locked");
    assert_eq!((r.code, r.data, r.msg), (500, None, "database is locked"));
}

#[test]
fn replies_for_handler_results() {
    let r = reply_for(Ok::<Vec<u8>, String>(vec![1, 2])).unwrap();
    assert_eq!((r.code, r.data, r.msg), (200, vec![1, 2], "操作成功"));
    match reply_for(Err::<Vec<u8>, String>("update failed".to_string())) {
        Err(e) => assert_eq!(e, "update failed"),
        Ok(_) => panic!("a failure must give its error text"),
    }
}
