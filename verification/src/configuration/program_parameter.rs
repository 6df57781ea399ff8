use vstd::prelude::*;
use vstd::string::*;

verus! {

/// One command-line parameter accepted by the program: its long and short
/// spellings, an optional value, and the sign that joins name and value.
pub struct ProgramParameter {
    pub longname: Option<String>,
    pub shortname: Option<String>,
    pub value: Option<String>,
    pub assign_sign: String,
}

impl ProgramParameter {
    pub fn new() -> (r: ProgramParameter)
        ensures
            r.longname is None,
            r.shortname is None,
            r.value is None,
            r.assign_sign@ == "="@,
    {
        ProgramParameter {
            longname: None,
            shortname: None,
            value: None,
            assign_sign: String::from_str("="),
        }
    }
}

} // verus!
