//! Conversion dispatcher: routes a (source format, target format) pair to
//! a converter or to a deterministic failure, independent of the sync
//! engine.
use vstd::prelude::*;
use vstd::string::StringExecFns;
use crate::json;
use crate::render;
use crate::strings;
use crate::value::GblnValue;

verus! {

/// A recognized, implemented conversion route.
#[derive(Clone, Copy, PartialEq, Eq, Debug, Structural)]
pub enum ConvertRoute {
    GblnToJson,
}

/// A deterministic conversion failure.
#[derive(Clone, Debug)]
pub enum ConvertError {
    /// JSON to GBLN needs the type-hint mechanism, which does not exist
    /// yet.
    JsonToGblnNeedsTypeHints,
    /// GBLN to YAML is not implemented yet.
    GblnToYamlNotImplemented,
    /// YAML to GBLN is not implemented yet.
    YamlToGblnNotImplemented,
    /// The pair is not a recognized route at all; it is reported verbatim.
    Unsupported { from: String, to: String },
}

/// Routes a conversion request. Exactly four pairs are recognized; only
/// GBLN to JSON is implemented, and every other request fails the same way
/// on every call.
pub fn plan_conversion(from: &str, to: &str) -> (r: Result<ConvertRoute, ConvertError>)
    ensures
        from@ == "gbln"@ && to@ == "json"@ ==> r == Ok::<ConvertRoute, ConvertError>(
            ConvertRoute::GblnToJson,
        ),
        from@ == "json"@ && to@ == "gbln"@ ==> r == Err::<ConvertRoute, ConvertError>(
            ConvertError::JsonToGblnNeedsTypeHints,
        ),
        from@ == "gbln"@ && to@ == "yaml"@ ==> r == Err::<ConvertRoute, ConvertError>(
            ConvertError::GblnToYamlNotImplemented,
        ),
        from@ == "yaml"@ && to@ == "gbln"@ ==> r == Err::<ConvertRoute, ConvertError>(
            ConvertError::YamlToGblnNotImplemented,
        ),
        !(from@ == "gbln"@ && to@ == "json"@) && !(from@ == "json"@ && to@ == "gbln"@) && !(from@
            == "gbln"@ && to@ == "yaml"@) && !(from@ == "yaml"@ && to@ == "gbln"@) ==> (
        r matches Err(ConvertError::Unsupported { from: f, to: t }) && f@ == from@ && t@ == to@),
{
    proof {
        reveal_strlit("gbln");
        reveal_strlit("json");
        reveal_strlit("yaml");
        assert("gbln"@[0] == 'g' && "json"@[0] == 'j' && "yaml"@[0] == 'y');
    }
    let from_gbln = strings::str_eq(from, "gbln");
    let from_json = strings::str_eq(from, "json");
    let from_yaml = strings::str_eq(from, "yaml");
    let to_gbln = strings::str_eq(to, "gbln");
    let to_json = strings::str_eq(to, "json");
    let to_yaml = strings::str_eq(to, "yaml");
    if from_gbln && to_json {
        Ok(ConvertRoute::GblnToJson)
    } else if from_json && to_gbln {
        Err(ConvertError::JsonToGblnNeedsTypeHints)
    } else if from_gbln && to_yaml {
        Err(ConvertError::GblnToYamlNotImplemented)
    } else if from_yaml && to_gbln {
        Err(ConvertError::YamlToGblnNotImplemented)
    } else {
        Err(
            ConvertError::Unsupported {
                from: String::from_str(from),
                to: String::from_str(to),
            },
        )
    }
}

/// The one implemented route: translates a parsed GBLN value structurally
/// and renders it as pretty JSON. The output is stated exactly, so the
/// conversion is reproducible bit for bit.
pub fn convert_gbln_to_json(v: &GblnValue) -> (r: String)
    ensures
        r@ == render::render_spec(json::json_of(v@), Seq::empty()),
{
    let j = json::gbln_value_to_json(v);
    render::render_json_pretty(&j)
}

} // verus!
