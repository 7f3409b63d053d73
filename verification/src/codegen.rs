//! Generation of the build unit for one submission: the entry-point
//! source that wraps the user's code, and the project manifest it is
//! compiled with.

use vstd::prelude::*;
use vstd::string::*;

verus! {

/// Text placed before the user's code in the generated entry-point
/// source.
pub const WRAPPER_PREFIX: &'static str = "use serde_json::{json, Value};\nuse std::io::{self, Read};\n\n";

/// Text placed after the user's code: a `main` that reads standard
/// input, parses it as JSON, calls the user's `handler`, and prints the
/// returned value.
pub const WRAPPER_SUFFIX: &'static str = "\n\nfn main() {\n    let mut input = String::new();\n    io::stdin().read_to_string(&mut input).expect(\"Failed to read stdin\");\n\n    let event: Value = serde_json::from_str(&input).expect(\"Failed to parse input JSON\");\n    let result = handler(event);\n\n    println!(\"{}\", result);\n}\n";

/// The manifest of the generated project: just enough dependencies to
/// parse and serialize JSON.
pub const PROJECT_MANIFEST: &'static str = "[package]\nname = \"handler\"\nversion = \"0.1.0\"\nedition = \"2018\"\n\n[dependencies]\nserde_json = \"1.0\"\nserde = { version = \"1.0\", features = [\"derive\"] }\n";

/// The full entry-point source for one submission: the user's code,
/// verbatim, between [`WRAPPER_PREFIX`] and [`WRAPPER_SUFFIX`].
pub fn get_wrapper_code(user_code: &str) -> (r: String)
    ensures
        r@ == WRAPPER_PREFIX@ + user_code@ + WRAPPER_SUFFIX@,
{
    let mut out = String::from_str(WRAPPER_PREFIX);
    out.append(user_code);
    out.append(WRAPPER_SUFFIX);
    out
}

/// The manifest text written to the workspace's `Cargo.toml`.
pub fn get_cargo_toml() -> (r: &'static str)
    ensures
        r@ == PROJECT_MANIFEST@,
{
    PROJECT_MANIFEST
}

} // verus!
