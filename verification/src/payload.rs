use vstd::prelude::*;
use vstd::string::*;

use crate::collector::WorkspaceBundle;
use crate::json::{
    append_json_object, append_json_opt_string, append_json_string, spec_json_object,
    spec_json_opt_string, spec_json_string,
};

verus! {

/// The view of an optional string.
pub open spec fn spec_opt_view(o: Option<String>) -> Option<Seq<char>> {
    match o {
        Some(s) => Some(s@),
        None => None,
    }
}

/// The shared request payload: the identification fields common to all
/// backends, plus the source bundle. Exactly one of `contract_address` and
/// `class_hash` is meaningful per request; the other is carried as null on
/// the wire rather than omitted, to keep the shape uniform across backends.
pub struct VerificationPayload {
    pub class_name: String,
    pub contract_address: Option<String>,
    pub class_hash: Option<String>,
    pub source_code: WorkspaceBundle,
}

/// The canonical JSON text of a payload, from the views of its parts: an
/// object with the fields `class_name`, `contract_address`, `class_hash`
/// (string or null), and `source_code` (object of path/content members, in
/// bundle order).
pub open spec fn spec_payload_json_parts(
    name: Seq<char>,
    addr: Option<Seq<char>>,
    hash: Option<Seq<char>>,
    files: Seq<(Seq<char>, Seq<char>)>,
) -> Seq<char> {
    "{\"class_name\":"@ + spec_json_string(name) + ",\"contract_address\":"@
        + spec_json_opt_string(addr) + ",\"class_hash\":"@ + spec_json_opt_string(hash)
        + ",\"source_code\":"@ + spec_json_object(files) + "}"@
}

/// The canonical JSON text of a payload.
pub open spec fn spec_payload_json(p: VerificationPayload) -> Seq<char> {
    spec_payload_json_parts(
        p.class_name@,
        spec_opt_view(p.contract_address),
        spec_opt_view(p.class_hash),
        p.source_code@,
    )
}

impl VerificationPayload {
    /// Serialize the payload to its canonical JSON text. Total: every
    /// payload has a rendering, so serialization never fails.
    pub fn to_json(&self) -> (r: String)
        ensures
            r@ == spec_payload_json(*self),
    {
        let mut out: String = "{\"class_name\":".to_owned();
        append_json_string(&mut out, self.class_name.as_str());
        out.append(",\"contract_address\":");
        append_json_opt_string(&mut out, &self.contract_address);
        out.append(",\"class_hash\":");
        append_json_opt_string(&mut out, &self.class_hash);
        out.append(",\"source_code\":");
        append_json_object(&mut out, &self.source_code.files);
        out.append("}");
        proof {
            assert(out@ =~= spec_payload_json(*self));
        }
        out
    }
}

} // verus!
