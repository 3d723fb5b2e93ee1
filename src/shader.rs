use vstd::prelude::*;

verus! {

/// A linked GL shader program, by its GL name.
#[derive(Clone, Copy, Debug, PartialEq, Eq, Structural)]
pub struct Shader {
    pub id: u32,
}

/// A program built from vertex and fragment shader sources given inline.
#[derive(Clone, Copy, Debug)]
pub struct Program {
    pub vs_s: &'static str,
    pub fs_s: &'static str,
    pub program_id: u32,
}

/// What a build step checks: the compilation of one of the two shader
/// stages, or the linking of the program.
#[derive(Clone, Copy, Debug, PartialEq, Eq, Structural)]
pub enum CompileTarget {
    Vertex,
    Fragment,
    Program,
}

/// The label of a build step in error reports.
pub open spec fn label_spec(target: CompileTarget) -> Seq<char> {
    match target {
        CompileTarget::Vertex => "VERTEX"@,
        CompileTarget::Fragment => "FRAGMENT"@,
        CompileTarget::Program => "PROGRAM"@,
    }
}

/// The line that closes every error report.
pub open spec fn report_rule() -> Seq<char> {
    "-------------------------------------"@
}

/// The report printed when a build step fails, around the driver's log.
pub open spec fn report_spec(target: CompileTarget, log: Seq<char>) -> Seq<char> {
    let head = if target == CompileTarget::Program {
        "\nERROR::PROGRAM_LINKING_ERROR of type:"@
    } else {
        "\nERROR::SHADER_COMPILATION_ERROR of type:"@
    };
    head + label_spec(target) + "\n"@ + log + "\n"@ + report_rule() + "\n"@
}

/// The header of the panic message of a failed build step, followed there by
/// the driver's log.
pub open spec fn failure_header_spec(target: CompileTarget) -> Seq<char> {
    match target {
        CompileTarget::Vertex => "ERROR::SHADER::VERTEX::COMPILATION_FAILED \n"@,
        CompileTarget::Fragment => "ERROR::SHADER::FRAGMENT::COMPILATION_FAILED \n"@,
        CompileTarget::Program => "ERROR::PROGRAM::LINKING_FAILED\n"@,
    }
}

impl CompileTarget {
    /// `VERTEX`, `FRAGMENT` or `PROGRAM`.
    pub fn label(self) -> (r: &'static str)
        ensures
            r@ == label_spec(self),
    {
        match self {
            CompileTarget::Vertex => "VERTEX",
            CompileTarget::Fragment => "FRAGMENT",
            CompileTarget::Program => "PROGRAM",
        }
    }

    /// Whether the step's outcome is the program's link status rather than a
    /// shader's compile status.
    pub fn checks_link_status(self) -> (r: bool)
        ensures
            r == (self == CompileTarget::Program),
    {
        match self {
            CompileTarget::Program => true,
            _ => false,
        }
    }

    /// The header of the message with which a failed step aborts the build.
    pub fn failure_header(self) -> (r: &'static str)
        ensures
            r@ == failure_header_spec(self),
    {
        match self {
            CompileTarget::Vertex => "ERROR::SHADER::VERTEX::COMPILATION_FAILED \n",
            CompileTarget::Fragment => "ERROR::SHADER::FRAGMENT::COMPILATION_FAILED \n",
            CompileTarget::Program => "ERROR::PROGRAM::LINKING_FAILED\n",
        }
    }
}

/// Whether a compile or link status queried from GL reports failure
/// (`GL_FALSE`).
pub fn status_failed(status: i32) -> (r: bool)
    ensures
        r == (status == 0),
{
    status == 0
}

/// The report for a failed build step, with the driver's info log.
pub fn compile_error_report(target: CompileTarget, log: &str) -> (r: String)
    ensures
        r@ == report_spec(target, log@),
{
    let mut r = if target.checks_link_status() {
        String::from_str("\nERROR::PROGRAM_LINKING_ERROR of type:")
    } else {
        String::from_str("\nERROR::SHADER_COMPILATION_ERROR of type:")
    };
    r.append(target.label());
    r.append("\n");
    r.append(log);
    r.append("\n");
    r.append("-------------------------------------");
    r.append("\n");
    r
}

} // verus!
