use libaudioverse::engine::Engine;
use libaudioverse::engine::ERROR_INVALID_HANDLE;
use libaudioverse::engine::ERROR_NOT_INITIALIZED;
use libaudioverse::engine::ERROR_RANGE;
use libaudioverse::initialize;
use libaudioverse::is_initialized;
use libaudioverse::shutdown;
use libaudioverse::Buffer;
use libaudioverse::Server;

#[test]
fn initializes_and_shuts_down() {
    let mut e = Engine::new();
    initialize(&mut e).unwrap();
    assert!(is_initialized(&e).unwrap());
    shutdown(&mut e).unwrap();
}

#[test]
fn starts_uninitialized() {
    let e = Engine::new();
    assert!(!is_initialized(&e).unwrap());
}

#[test]
fn initialization_is_counted_and_balanced() {
    let mut e = Engine::new();
    initialize(&mut e).unwrap();
    initialize(&mut e).unwrap();
    shutdown(&mut e).unwrap();
    assert!(is_initialized(&e).unwrap());
    shutdown(&mut e).unwrap();
    assert!(!is_initialized(&e).unwrap());
}

#[test]
fn unbalanced_shutdown_is_rejected() {
    let mut e = Engine::new();
    let err = shutdown(&mut e).unwrap_err();
    assert_eq!(err.code, ERROR_NOT_INITIALIZED);
    assert_eq!(err.message, "engine is not initialized");
}

#[test]
fn creation_requires_initialization() {
    let mut e = Engine::new();
    let err = Server::new(&mut e).unwrap_err();
    assert_eq!(err.code, ERROR_NOT_INITIALIZED);
}

#[test]
fn final_shutdown_destroys_objects() {
    let mut e = Engine::new();
    initialize(&mut e).unwrap();
    let server = Server::new(&mut e).unwrap();
    let buf = Buffer::new(&mut e, &server).unwrap();
    shutdown(&mut e).unwrap();
    initialize(&mut e).unwrap();
    let err = buf.get_length_in_samples(&e).unwrap_err();
    assert_eq!(err.code, ERROR_INVALID_HANDLE);
    shutdown(&mut e).unwrap();
}

#[test]
fn can_create_server_with_default_audio_device() {
    let mut e = Engine::new();
    initialize(&mut e).unwrap();
    let server = Server::new(&mut e).unwrap();
    server
        .set_output_device(&mut e)
        .expect("Could not create default audio device");
    shutdown(&mut e).unwrap();
}

#[test]
fn block_size_must_be_a_multiple_of_four() {
    let mut e = Engine::new();
    initialize(&mut e).unwrap();
    let err = Server::construct(&mut e, 44100, 1022).unwrap_err();
    assert_eq!(err.code, ERROR_RANGE);
    assert!(Server::construct(&mut e, 48000, 512).is_ok());
    shutdown(&mut e).unwrap();
}

#[test]
fn empty_device_identifier_is_unavailable() {
    let mut e = Engine::new();
    initialize(&mut e).unwrap();
    let server = Server::new(&mut e).unwrap();
    let err = server.set_output_device_details(&mut e, "", 2, 2).unwrap_err();
    assert_eq!(err.message, "audio device unavailable");
    shutdown(&mut e).unwrap();
}
