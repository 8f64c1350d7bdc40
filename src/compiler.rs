use vstd::prelude::*;
use crate::error::SandboxError;

verus! {

/// Descriptor of a language runtime that the isolated environment can run.
///
/// Entries of the registry are fixed for the lifetime of the process; `wf` states
/// what every usable descriptor satisfies.
#[derive(Debug, Clone, PartialEq, Eq)]
pub struct LanguageCompiler {
    /// The language of the submitted code, e.g. `python`. Also names the staged files.
    pub language: String,
    /// The executable invoked inside the isolated environment, e.g. `python3`.
    pub compiler: String,
    /// Whether the code runs directly; when false a compile step precedes execution.
    pub interpreter: bool,
    /// Extra arguments, always appended after the fixed part of the invocation.
    pub additional_arguments: Option<String>,
    /// The image of the isolated runtime used for this language.
    pub virtual_machine_name: String,
    /// The file, inside the workspace, that receives standard output.
    pub standard_output_file: String,
    /// The file, inside the workspace, that receives standard error.
    pub standard_error_file: String,
}

impl LanguageCompiler {
    /// A descriptor is usable when it names an executable and an image, and its
    /// output and error files are distinct and non-empty.
    pub open spec fn wf(&self) -> bool {
        &&& self.language@.len() > 0
        &&& self.compiler@.len() > 0
        &&& self.virtual_machine_name@.len() > 0
        &&& self.standard_output_file@.len() > 0
        &&& self.standard_error_file@.len() > 0
        &&& self.standard_output_file@ != self.standard_error_file@
    }
}

/// The Python entry of the registry.
pub open spec fn is_python(c: LanguageCompiler) -> bool {
    &&& c.language@ == "python"@
    &&& c.compiler@ == "python3"@
    &&& c.interpreter
    &&& c.additional_arguments is None
    &&& c.virtual_machine_name@ == "python_virtual_machine"@
    &&& c.standard_output_file@ == "python.out"@
    &&& c.standard_error_file@ == "python.error.out"@
}

/// The JavaScript entry of the registry.
pub open spec fn is_javascript(c: LanguageCompiler) -> bool {
    &&& c.language@ == "Javascript"@
    &&& c.compiler@ == "node"@
    &&& c.interpreter
    &&& c.additional_arguments is None
    &&& c.virtual_machine_name@ == "node_virtual_machine"@
    &&& c.standard_output_file@ == "node.out"@
    &&& c.standard_error_file@ == "node.error.out"@
}

/// The registry as a sequence of descriptors, in lookup order.
pub open spec fn is_registry(r: Seq<LanguageCompiler>) -> bool {
    &&& r.len() == 2
    &&& is_python(r[0])
    &&& is_javascript(r[1])
}

/// The language identifiers the registry accepts.
pub open spec fn supported_language(language: Seq<char>) -> bool {
    language == "python"@ || language == "Javascript"@
}

/// The descriptor for Python.
pub fn python() -> (c: LanguageCompiler)
    ensures
        is_python(c),
        c.wf(),
{
    proof {
        reveal_strlit("python");
        reveal_strlit("python3");
        reveal_strlit("python_virtual_machine");
        reveal_strlit("python.out");
        reveal_strlit("python.error.out");
    }
    LanguageCompiler {
        language: "python".to_owned(),
        compiler: "python3".to_owned(),
        interpreter: true,
        additional_arguments: None,
        virtual_machine_name: "python_virtual_machine".to_owned(),
        standard_output_file: "python.out".to_owned(),
        standard_error_file: "python.error.out".to_owned(),
    }
}

/// The descriptor for JavaScript, run by node.
pub fn javascript() -> (c: LanguageCompiler)
    ensures
        is_javascript(c),
        c.wf(),
{
    proof {
        reveal_strlit("Javascript");
        reveal_strlit("node");
        reveal_strlit("node_virtual_machine");
        reveal_strlit("node.out");
        reveal_strlit("node.error.out");
    }
    LanguageCompiler {
        language: "Javascript".to_owned(),
        compiler: "node".to_owned(),
        interpreter: true,
        additional_arguments: None,
        virtual_machine_name: "node_virtual_machine".to_owned(),
        standard_output_file: "node.out".to_owned(),
        standard_error_file: "node.error.out".to_owned(),
    }
}

/// All supported runtimes, in lookup order.
pub fn compilers() -> (r: Vec<LanguageCompiler>)
    ensures
        is_registry(r@),
        forall|i: int| 0 <= i < r@.len() ==> (#[trigger] r@[i]).wf(),
{
    let mut r: Vec<LanguageCompiler> = Vec::new();
    r.push(python());
    r.push(javascript());
    r
}

} // verus!

verus! {

/// Finds the registry entry for `language` (compared exactly, case included).
pub fn lookup(language: &str) -> (r: Result<LanguageCompiler, SandboxError>)
    ensures
        r is Ok <==> supported_language(language@),
        r is Err ==> r == Err::<LanguageCompiler, SandboxError>(SandboxError::UnsupportedLanguage),
        language@ == "python"@ ==> (r matches Ok(c) && is_python(c)),
        language@ == "Javascript"@ ==> (r matches Ok(c) && is_javascript(c)),
        r matches Ok(c) ==> c.wf() && c.language@ == language@,
{
    let wanted = language.to_owned();
    let mut registry = compilers();
    proof {
        reveal_strlit("python");
        reveal_strlit("Javascript");
        assert("python"@[0] != "Javascript"@[0]);
    }
    let ghost all = registry@;
    let mut i: usize = 0;
    while i < registry.len()
        invariant
            registry@ == all,
            is_registry(all),
            forall|k: int| 0 <= k < all.len() ==> (#[trigger] all[k]).wf(),
            wanted@ == language@,
            "python"@ != "Javascript"@,
            0 <= i <= all.len(),
            forall|k: int| 0 <= k < i ==> (#[trigger] all[k]).language@ != language@,
        decreases all.len() - i,
    {
        if registry[i].language == wanted {
            let c = registry.remove(i);
            return Ok(c);
        }
        i = i + 1;
    }
    Err(SandboxError::UnsupportedLanguage)
}

/// A descriptor is registered when it equals one of the registry's entries in every
/// field. Only registered descriptors are staged and run.
pub open spec fn registered(c: LanguageCompiler) -> bool {
    is_python(c) || is_javascript(c)
}

fn same_text(a: &String, b: &String) -> (r: bool)
    ensures
        r == (a@ == b@),
{
    *a == *b
}

fn same_descriptor(a: &LanguageCompiler, b: &LanguageCompiler) -> (r: bool)
    ensures
        r == {
            &&& a.language@ == b.language@
            &&& a.compiler@ == b.compiler@
            &&& a.interpreter == b.interpreter
            &&& match (a.additional_arguments, b.additional_arguments) {
                (Some(x), Some(y)) => x@ == y@,
                (None, None) => true,
                _ => false,
            }
            &&& a.virtual_machine_name@ == b.virtual_machine_name@
            &&& a.standard_output_file@ == b.standard_output_file@
            &&& a.standard_error_file@ == b.standard_error_file@
        },
{
    let extra = match (&a.additional_arguments, &b.additional_arguments) {
        (Some(x), Some(y)) => same_text(x, y),
        (None, None) => true,
        _ => false,
    };
    extra && same_text(&a.language, &b.language) && same_text(&a.compiler, &b.compiler)
        && a.interpreter == b.interpreter && same_text(
        &a.virtual_machine_name,
        &b.virtual_machine_name,
    ) && same_text(&a.standard_output_file, &b.standard_output_file) && same_text(
        &a.standard_error_file,
        &b.standard_error_file,
    )
}

/// Whether `c` is one of the registry's entries.
pub fn is_registered(c: &LanguageCompiler) -> (r: bool)
    ensures
        r == registered(*c),
        r ==> c.wf(),
{
    let p = python();
    let j = javascript();
    same_descriptor(c, &p) || same_descriptor(c, &j)
}

} // verus!
