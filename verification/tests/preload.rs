use bunode::argv::PathStyle;
use bunode::error::BunodeError;
use bunode::preload::{after_fallback_write, after_primary_write, fallback_preload_directory, prepare, PreloadNext};

#[test]
fn preload_should_sit_next_to_bun() {
    let path = prepare("/opt/node/bin/node", PathStyle::Posix).ok().unwrap();
    assert_eq!(path, "/opt/node/bin/../bun/bunode-preload.cjs");
}

#[test]
fn preload_should_use_the_copy_beside_bun_when_it_was_written() {
    match after_primary_write("/opt/node/bun/bunode-preload.cjs".to_string(), true, "/home/u/.cache/bunode", PathStyle::Posix) {
        PreloadNext::Ready(path) => assert_eq!(path, "/opt/node/bun/bunode-preload.cjs"),
        PreloadNext::WriteFallback(_) => panic!("expected the preload beside Bun"),
    }
}

#[test]
fn preload_should_fall_back_to_the_cache_directory() {
    let fallback = fallback_preload_directory(PathStyle::Posix, None, None, None, Some("/home/u".to_string()), "/tmp".to_string());
    assert_eq!(fallback, "/home/u/.cache/bunode");
    let path = match after_primary_write("/opt/node/bun/bunode-preload.cjs".to_string(), false, &fallback, PathStyle::Posix) {
        PreloadNext::WriteFallback(path) => path,
        PreloadNext::Ready(_) => panic!("expected the fallback"),
    };
    assert_eq!(path, "/home/u/.cache/bunode/bunode-preload.cjs");
    assert_eq!(after_fallback_write(path.clone(), Ok(())).ok().unwrap(), path);

    match after_fallback_write(path, Err("permission denied".to_string())) {
        Err(BunodeError::CommandExecution(message)) => assert_eq!(message, "permission denied"),
        _ => panic!("expected the fallback's error"),
    }
    let windows = fallback_preload_directory(PathStyle::Windows, None, Some(r"C:\Users\u".to_string()), None, None, r"C:\Temp".to_string());
    assert_eq!(windows, r"C:\Users\u\bunode");
}
