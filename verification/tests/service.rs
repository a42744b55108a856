use rpc_discover::service::{init, Config};

#[test]
fn handles_share_the_opened_store() {
    let opened: Result<Vec<u8>, String> = Ok(vec![1, 2, 3]);
    let (readers, writer) = match init(Config { reader_threads: 4 }, opened) {
        Ok(handles) => handles,
        Err(error) => panic!("unexpected error: {error}"),
    };
    assert_eq!(readers.reader_threads(), 4);
    assert_eq!(readers.store(), &vec![1, 2, 3]);
    assert_eq!(writer.store(), &vec![1, 2, 3]);
    assert!(std::ptr::eq(readers.store(), writer.store()));
}

#[test]
fn reader_count_is_taken_from_the_config() {
    for reader_threads in [0usize, 1, 64] {
        let opened: Result<u8, String> = Ok(9);
        match init(Config { reader_threads }, opened) {
            Ok((readers, _)) => assert_eq!(readers.reader_threads(), reader_threads),
            Err(error) => panic!("unexpected error: {error}"),
        }
    }
}

#[test]
fn open_error_is_handed_on() {
    let opened: Result<Vec<u8>, String> = Err("corrupt".to_string());
    match init(Config { reader_threads: 4 }, opened) {
        Ok(_) => panic!("handles without a store"),
        Err(error) => assert_eq!(error, "corrupt"),
    }
}
