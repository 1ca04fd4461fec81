//! Texts of the result codes, and the fields of a machine-readable
//! message. Rendering a message (as a line of text or as a JSON record) is
//! left to the caller.
use vstd::prelude::*;

verus! {

/// The short symbolic name of a result code; an unknown code reads as a
/// generic failure.
pub open spec fn parsable_text(code: u64) -> Seq<char> {
    match code {
        1001 => "FOERR_GENERIC_FAILURE"@,
        1011 => "FOERR_DESTINATION_IS_ITSELF"@,
        1012 => "FOERR_DESTINATION_IS_DIR"@,
        1013 => "FOERR_DESTINATION_IS_SYMLINK"@,
        1014 => "FOERR_DESTINATION_IS_NEWER"@,
        1015 => "FOERR_DESTINATION_IS_IDENTICAL"@,
        1016 => "FOERR_DESTINATION_IS_READONLY"@,
        1021 => "FOERR_DESTINATION_EXISTS"@,
        1022 => "FOERR_DESTINATION_NOT_ACCESSIBLE"@,
        1031 => "FOERR_CANNOT_CREATE_DIR"@,
        1032 => "FOERR_CANNOT_CREATE_FILE"@,
        1041 => "FOERR_SOURCE_NOT_EXISTS"@,
        1042 => "FOERR_SOURCE_IS_DIR"@,
        1043 => "FOERR_SOURCE_IS_SYMLINK"@,
        1044 => "FOERR_SOURCE_NOT_ACCESSIBLE"@,
        2001 => "CJERR_GENERIC_FAILURE"@,
        2011 => "CJERR_SOURCE_DIR_NOT_EXISTS"@,
        2012 => "CJERR_DESTINATION_DIR_NOT_EXISTS"@,
        2013 => "CJERR_NO_SOURCE_FILES"@,
        2021 => "CJERR_CANNOT_DETERMINE_DESTFILE"@,
        2041 => "CJERR_HALT_ON_COPY_ERROR"@,
        9998 => "ERR_INVALID_CONFIG"@,
        0 => "OK"@,
        _ => "ERR_GENERIC"@,
    }
}

/// The human-readable description of a result code; an unknown code reads
/// as a generic failure.
pub open spec fn verbose_text(code: u64) -> Seq<char> {
    match code {
        1001 => "file operation: generic failure"@,
        1011 => "file operation: failed attempt to copy on self"@,
        1012 => "file operation: destination is a directory"@,
        1013 => "file operation: destination is a symbolic link"@,
        1014 => "file operation: destination is more recent than source"@,
        1015 => "file operation: destination is identical to source"@,
        1016 => "file operation: cannot overwrite destination"@,
        1021 => "file operation: destination exists"@,
        1022 => "file operation: destination is not accessible"@,
        1031 => "file operation: cannot create directory"@,
        1032 => "file operation: cannot create file"@,
        1041 => "file operation: source file does not exist"@,
        1042 => "file operation: source file is a directory"@,
        1043 => "file operation: source file is a symbolic link"@,
        1044 => "file operation: source file is not accessible"@,
        2001 => "copy job: generic failure"@,
        2011 => "copy job: source directory does not exist"@,
        2012 => "copy job: destination does not exist"@,
        2013 => "copy job: no source files found"@,
        2021 => "copy job: cannot determine source"@,
        2041 => "copy job: ending job after copy error"@,
        9998 => "application: invalid config file"@,
        0 => "application: operation succeeded"@,
        _ => "application: generic failure"@,
    }
}

pub fn format_err_parsable(code: u64) -> (r: &'static str)
    ensures
        r@ == parsable_text(code),
{
    match code {
        1001 => "FOERR_GENERIC_FAILURE",
        1011 => "FOERR_DESTINATION_IS_ITSELF",
        1012 => "FOERR_DESTINATION_IS_DIR",
        1013 => "FOERR_DESTINATION_IS_SYMLINK",
        1014 => "FOERR_DESTINATION_IS_NEWER",
        1015 => "FOERR_DESTINATION_IS_IDENTICAL",
        1016 => "FOERR_DESTINATION_IS_READONLY",
        1021 => "FOERR_DESTINATION_EXISTS",
        1022 => "FOERR_DESTINATION_NOT_ACCESSIBLE",
        1031 => "FOERR_CANNOT_CREATE_DIR",
        1032 => "FOERR_CANNOT_CREATE_FILE",
        1041 => "FOERR_SOURCE_NOT_EXISTS",
        1042 => "FOERR_SOURCE_IS_DIR",
        1043 => "FOERR_SOURCE_IS_SYMLINK",
        1044 => "FOERR_SOURCE_NOT_ACCESSIBLE",
        2001 => "CJERR_GENERIC_FAILURE",
        2011 => "CJERR_SOURCE_DIR_NOT_EXISTS",
        2012 => "CJERR_DESTINATION_DIR_NOT_EXISTS",
        2013 => "CJERR_NO_SOURCE_FILES",
        2021 => "CJERR_CANNOT_DETERMINE_DESTFILE",
        2041 => "CJERR_HALT_ON_COPY_ERROR",
        9998 => "ERR_INVALID_CONFIG",
        0 => "OK",
        _ => "ERR_GENERIC",
    }
}

pub fn format_err_verbose(code: u64) -> (r: &'static str)
    ensures
        r@ == verbose_text(code),
{
    match code {
        1001 => "file operation: generic failure",
        1011 => "file operation: failed attempt to copy on self",
        1012 => "file operation: destination is a directory",
        1013 => "file operation: destination is a symbolic link",
        1014 => "file operation: destination is more recent than source",
        1015 => "file operation: destination is identical to source",
        1016 => "file operation: cannot overwrite destination",
        1021 => "file operation: destination exists",
        1022 => "file operation: destination is not accessible",
        1031 => "file operation: cannot create directory",
        1032 => "file operation: cannot create file",
        1041 => "file operation: source file does not exist",
        1042 => "file operation: source file is a directory",
        1043 => "file operation: source file is a symbolic link",
        1044 => "file operation: source file is not accessible",
        2001 => "copy job: generic failure",
        2011 => "copy job: source directory does not exist",
        2012 => "copy job: destination does not exist",
        2013 => "copy job: no source files found",
        2021 => "copy job: cannot determine source",
        2041 => "copy job: ending job after copy error",
        9998 => "application: invalid config file",
        0 => "application: operation succeeded",
        _ => "application: generic failure",
    }
}

/// Context of a message about the whole program.
pub const CONTEXT_MAIN: &'static str = "MAIN";
/// Context of a message about one job.
pub const CONTEXT_JOB: &'static str = "JOB";
/// Context of a message about the run of the jobs.
pub const CONTEXT_TASK: &'static str = "TASK";

pub const OPERATION_JOB_COPY: &'static str = "COPY";
pub const OPERATION_JOB_DEL: &'static str = "DEL";
pub const OPERATION_JOB_BEGIN: &'static str = "BEGIN_JOB";
pub const OPERATION_JOB_END: &'static str = "END_JOB";
pub const OPERATION_MAIN_END: &'static str = "END_MAIN";
pub const OPERATION_CONFIG: &'static str = "CONFIG";

/// The structured fields of one message.
#[derive(Debug)]
pub struct MessageFields {
    pub context: String,
    /// `INFO` for a success, `ERROR` otherwise.
    pub message_type: String,
    pub code: u64,
    /// The symbolic name of `code`.
    pub code_name: String,
    pub operation: String,
    /// The job or file the message is about.
    pub name: String,
    pub arg1: String,
    pub arg2: String,
}

/// A value as shown in a message: `<N/A>` stands for an empty one.
pub open spec fn shown(s: Seq<char>) -> Seq<char> {
    if s.len() == 0 {
        "<N/A>"@
    } else {
        s
    }
}

pub open spec fn message_type_of(code: u64) -> Seq<char> {
    if code == 0 {
        "INFO"@
    } else {
        "ERROR"@
    }
}

fn shown_value(s: &str) -> (r: String)
    ensures
        r@ == shown(s@),
{
    if s.unicode_len() == 0 {
        String::from_str("<N/A>")
    } else {
        s.to_string()
    }
}

/// The fields of a machine-readable message: the context, the message type
/// given by the code, the code with its symbolic name, the operation, and
/// the name and two arguments, each shown as `<N/A>` when empty.
pub fn message_fields(
    context: &str,
    name: &str,
    code: u64,
    operation: &str,
    arg1: &str,
    arg2: &str,
) -> (r: MessageFields)
    ensures
        r.context@ == context@,
        r.message_type@ == message_type_of(code),
        r.code == code,
        r.code_name@ == parsable_text(code),
        r.operation@ == operation@,
        r.name@ == shown(name@),
        r.arg1@ == shown(arg1@),
        r.arg2@ == shown(arg2@),
{
    let message_type = if code == 0 {
        String::from_str("INFO")
    } else {
        String::from_str("ERROR")
    };
    MessageFields {
        context: context.to_string(),
        message_type,
        code,
        code_name: String::from_str(format_err_parsable(code)),
        operation: operation.to_string(),
        name: shown_value(name),
        arg1: shown_value(arg1),
        arg2: shown_value(arg2),
    }
}

} // verus!
