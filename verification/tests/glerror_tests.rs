use mandel_viewer::glerror::{
    error_string, print_gl_errors, print_one_error, INVALID_ENUM, INVALID_FRAMEBUFFER_OPERATION,
    INVALID_OPERATION, INVALID_VALUE, NO_ERROR, OUT_OF_MEMORY, STACK_OVERFLOW, STACK_UNDERFLOW,
};

#[test]
fn error_codes_are_those_of_gl() {
    assert_eq!(NO_ERROR, gl::NO_ERROR);
    assert_eq!(INVALID_ENUM, gl::INVALID_ENUM);
    assert_eq!(INVALID_VALUE, gl::INVALID_VALUE);
    assert_eq!(INVALID_OPERATION, gl::INVALID_OPERATION);
    assert_eq!(INVALID_FRAMEBUFFER_OPERATION, gl::INVALID_FRAMEBUFFER_OPERATION);
    assert_eq!(OUT_OF_MEMORY, gl::OUT_OF_MEMORY);
    assert_eq!(STACK_UNDERFLOW, gl::STACK_UNDERFLOW);
    assert_eq!(STACK_OVERFLOW, gl::STACK_OVERFLOW);
}

#[test]
fn error_string_names_every_gl_error() {
    assert_eq!(error_string(gl::NO_ERROR), "GL_NO_ERROR");
    assert_eq!(error_string(gl::INVALID_ENUM), "GL_INVALID_ENUM");
    assert_eq!(error_string(gl::INVALID_VALUE), "GL_INVALID_VALUE");
    assert_eq!(error_string(gl::INVALID_OPERATION), "GL_INVALID_OPERATION");
    assert_eq!(
        error_string(gl::INVALID_FRAMEBUFFER_OPERATION),
        "GL_INVALID_FRAMEBUFFER_OPERATION"
    );
    assert_eq!(error_string(gl::OUT_OF_MEMORY), "GL_OUT_OF_MEMORY");
    assert_eq!(error_string(gl::STACK_UNDERFLOW), "GL_STACK_UNDERFLOW");
    assert_eq!(error_string(gl::STACK_OVERFLOW), "GL_STACK_OVERFLOW");
}

#[test]
fn error_string_of_an_unknown_code() {
    assert_eq!(error_string(1), "Not a valid GLerror");
    assert_eq!(error_string(0x0507), "Not a valid GLerror");
    assert_eq!(error_string(u32::MAX), "Not a valid GLerror");
}

#[test]
fn print_one_error_is_silent_on_no_error() {
    assert_eq!(print_one_error(0), None);
}

#[test]
fn print_one_error_writes_the_line() {
    assert_eq!(
        print_one_error(0x0502),
        Some(String::from("GL error: GL_INVALID_OPERATION"))
    );
    assert_eq!(
        print_one_error(7),
        Some(String::from("GL error: Not a valid GLerror"))
    );
}

#[test]
fn print_gl_errors_stops_at_the_first_no_error() {
    let mut out = vec![String::from("earlier")];
    let found = print_gl_errors(&[0x0500, 0x0505, 0, 0x0501], &mut out);
    assert!(found);
    assert_eq!(
        out,
        vec![
            String::from("earlier"),
            String::from("GL error: GL_INVALID_ENUM"),
            String::from("GL error: GL_OUT_OF_MEMORY"),
        ]
    );
}

#[test]
fn print_gl_errors_on_a_clean_queue() {
    let mut out = Vec::new();
    assert!(!print_gl_errors(&[0], &mut out));
    assert!(!print_gl_errors(&[], &mut out));
    assert!(!print_gl_errors(&[0, 0x0500], &mut out));
    assert!(out.is_empty());
}

#[test]
fn print_gl_errors_reads_a_queue_without_end_mark_whole() {
    let mut out = Vec::new();
    assert!(print_gl_errors(&[0x0503, 0x0504], &mut out));
    assert_eq!(
        out,
        vec![
            String::from("GL error: GL_STACK_OVERFLOW"),
            String::from("GL error: GL_STACK_UNDERFLOW"),
        ]
    );
}
