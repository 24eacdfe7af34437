use vstd::prelude::*;
use vstd::string::StringExecFns;

verus! {

/// The kind of a script instance, by its class name.
#[derive(Debug, Clone, PartialEq, Eq)]
pub enum ScriptType {
    Script,
    LocalScript,
    ModuleScript,
    /// Fallback for non-standard classes, keeping the class name.
    Unknown(String),
}

/// Exact equality of two string slices.
fn str_eq(a: &str, b: &str) -> (r: bool)
    ensures
        r == (a@ == b@),
{
    let x = String::from_str(a);
    let y = String::from_str(b);
    x == y
}

impl ScriptType {
    /// The class name this kind stands for.
    pub open spec fn spec_class_name(&self) -> Seq<char> {
        match self {
            ScriptType::Script => "Script"@,
            ScriptType::LocalScript => "LocalScript"@,
            ScriptType::ModuleScript => "ModuleScript"@,
            ScriptType::Unknown(s) => s@,
        }
    }

    /// Classifies a class name: the three script classes map to their own
    /// kinds, anything else is kept verbatim as unknown.
    pub fn from_class_name(class_name: &str) -> (r: ScriptType)
        ensures
            r is Script <==> class_name@ == "Script"@,
            r is LocalScript <==> class_name@ == "LocalScript"@,
            r is ModuleScript <==> class_name@ == "ModuleScript"@,
            r.spec_class_name() == class_name@,
    {
        proof {
            broadcast use vstd::string::group_string_axioms;

            reveal_strlit("Script");
            reveal_strlit("LocalScript");
            reveal_strlit("ModuleScript");
            assert("Script"@.len() == 6);
            assert("LocalScript"@.len() == 11);
            assert("ModuleScript"@.len() == 12);
        }
        if str_eq(class_name, "Script") {
            ScriptType::Script
        } else if str_eq(class_name, "LocalScript") {
            ScriptType::LocalScript
        } else if str_eq(class_name, "ModuleScript") {
            ScriptType::ModuleScript
        } else {
            ScriptType::Unknown(String::from_str(class_name))
        }
    }

    /// The class name back, verbatim.
    pub fn as_str(&self) -> (r: &str)
        ensures
            r@ == self.spec_class_name(),
    {
        match self {
            ScriptType::Script => "Script",
            ScriptType::LocalScript => "LocalScript",
            ScriptType::ModuleScript => "ModuleScript",
            ScriptType::Unknown(s) => s.as_str(),
        }
    }
}

} // verus!
