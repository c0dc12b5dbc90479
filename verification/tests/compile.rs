use gll::error::Error;
use gll::shader::Shader;
use gll::status::{status_is_set, status_query, Failure, Object, Query};
use gll::text::{decode, driver_bytes};

#[test]
fn valid_vertex_source_compiles() {
    let source = "void main(){gl_Position=vec4(0.0);}";
    let request = Shader::from_str(gl::VERTEX_SHADER, source).unwrap();
    assert_eq!(request.shader_type, gl::VERTEX_SHADER);
    assert_eq!(request.source, source.as_bytes().to_vec());
    // the driver made object 1 and reports its status as set
    let shader = Shader::from_status(1, 1).unwrap();
    assert_eq!(shader, Shader { id: 1 });
}

#[test]
fn defective_fragment_source_fails_with_diagnostic() {
    let request = Shader::from_str(gl::FRAGMENT_SHADER, "voidmain(){}").unwrap();
    assert_eq!(request.shader_type, gl::FRAGMENT_SHADER);
    assert_eq!(request.source, b"voidmain(){}".to_vec());
    // the driver made object 2 and reports its status as not set
    let failure = Shader::from_status(2, 0).unwrap_err();
    assert_eq!(failure, Failure { object: Object::Shader, id: 2 });
    let log = b"0:1(1): error: syntax error, unexpected '{'\n\0";
    let buffer = failure.log_buffer(45);
    assert_eq!(buffer, vec![0u8; 45]);
    assert_eq!(buffer.len(), log.len());
    let error = failure.into_error(log);
    match &error {
        Error::Compile(text) => {
            assert!(!text.is_empty());
            assert!(text.contains("syntax error"));
            assert_eq!(text.as_bytes(), &log[..]);
        }
        other => panic!("{:?}", other),
    }
    assert_eq!(error.diagnostic(), "0:1(1): error: syntax error, unexpected '{'\n\0");
}

#[test]
fn source_with_terminator_never_reaches_the_driver() {
    assert_eq!(Shader::from_str(gl::VERTEX_SHADER, "void main()\0{}").unwrap_err(), Error::Encoding);
    assert_eq!(Shader::from_str(gl::VERTEX_SHADER, "\0").unwrap_err(), Error::Encoding);
    assert_eq!(driver_bytes("ab\0").unwrap_err(), Error::Encoding);
}

#[test]
fn empty_source_is_handed_on() {
    let request = Shader::from_str(gl::VERTEX_SHADER, "").unwrap();
    assert_eq!(request.source, Vec::<u8>::new());
    assert_eq!(driver_bytes("").unwrap(), Vec::<u8>::new());
}

#[test]
fn source_beyond_ascii_is_handed_on_byte_for_byte() {
    let source = "// gr\u{f6}\u{df}e\nvoid main(){}";
    let request = Shader::from_str(gl::VERTEX_SHADER, source).unwrap();
    assert_eq!(request.source, source.as_bytes().to_vec());
    assert_eq!(request.source.len(), 24);
}

#[test]
fn only_the_drivers_true_is_a_set_status() {
    assert!(status_is_set(1));
    assert!(!status_is_set(0));
    assert!(!status_is_set(-1));
    assert!(!status_is_set(2));
    assert!(!status_is_set(i32::MAX));
    assert!(Shader::from_status(9, -1).is_err());
    assert!(Shader::from_status(9, 256 + 1).is_err());
    assert_eq!(Shader::from_status(u32::MAX, 1).unwrap().id, u32::MAX);
}

#[test]
fn queries_name_the_drivers_parameters() {
    assert_eq!(
        status_query(Object::Shader, 5),
        Query { object: Object::Shader, id: 5, parameter: 0x8B81 }
    );
    assert_eq!(
        status_query(Object::Program, 6),
        Query { object: Object::Program, id: 6, parameter: 0x8B82 }
    );
    let failure = Failure { object: Object::Shader, id: 5 };
    assert_eq!(
        failure.log_length_query(),
        Query { object: Object::Shader, id: 5, parameter: 0x8B84 }
    );
    assert_eq!(status_query(Object::Shader, 5).parameter, gl::COMPILE_STATUS);
    assert_eq!(status_query(Object::Program, 5).parameter, gl::LINK_STATUS);
    assert_eq!(failure.log_length_query().parameter, gl::INFO_LOG_LENGTH);
}

#[test]
fn log_buffer_is_zeroed_and_as_long_as_asked() {
    let failure = Failure { object: Object::Shader, id: 1 };
    assert_eq!(failure.log_buffer(0), Vec::<u8>::new());
    assert_eq!(failure.log_buffer(1), vec![0u8]);
    assert_eq!(failure.log_buffer(4), vec![0u8, 0, 0, 0]);
    assert_eq!(failure.log_buffer(1000).len(), 1000);
}

#[test]
fn log_that_is_not_utf8_is_an_encoding_error() {
    let failure = Failure { object: Object::Shader, id: 1 };
    assert_eq!(failure.into_error(&[0x66, 0xFF, 0x00]), Error::Encoding);
    let failure = Failure { object: Object::Program, id: 1 };
    assert_eq!(failure.into_error(&[0xC3]), Error::Encoding);
    assert_eq!(decode(&[0xED, 0xA0, 0x80]).unwrap_err(), Error::Encoding);
    assert_eq!(Error::Encoding.diagnostic(), "");
}

#[test]
fn log_is_decoded_whole() {
    assert_eq!(decode(&[]).unwrap(), "");
    assert_eq!(decode(&[0xC3, 0xA9]).unwrap(), "\u{e9}");
    assert_eq!(decode(&[0xC3, 0xA9]).unwrap().chars().count(), 1);
    assert_eq!(decode(b"bad\0\0\0").unwrap(), "bad\0\0\0");
    let failure = Failure { object: Object::Shader, id: 1 };
    assert_eq!(failure.into_error(&[0, 0]), Error::Compile("\0\0".to_string()));
    let failure = Failure { object: Object::Shader, id: 1 };
    assert_eq!(failure.into_error(&[]), Error::Compile(String::new()));
}
