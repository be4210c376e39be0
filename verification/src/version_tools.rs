//! The version operations: listing the stored versions and resolving the
//! newest stable one, each serialized as a JSON response document.

use vstd::prelude::*;
use crate::errors::OcsfError;
use crate::json::{
    JsonValue, JsonModel, model_text, model_push, fields_model, text_array, json_num_u64,
    render_json,
};
use crate::schema::{OcsfSchema, builtin_version_list, version_known, is_stable_version};
use crate::text::{dec_str, lex_le};

verus! {

#[derive(Debug)]
pub struct ListVersionsRequest {}

#[derive(Debug)]
pub struct GetNewestVersionRequest {}

#[derive(Debug)]
pub struct VersionsResponse {
    pub versions: Vec<String>,
    pub count: usize,
}

#[derive(Debug)]
pub struct NewestVersionResponse {
    pub version: String,
    pub is_stable: bool,
}

/// The response document of the version listing.
pub open spec fn versions_response_model(versions: Seq<Seq<char>>) -> JsonModel {
    JsonModel::Obj(
        seq![
            ("versions"@, JsonModel::Arr(versions.map_values(|t: Seq<char>| JsonModel::Text(t)))),
            ("count"@, JsonModel::Num(dec_str(versions.len() as nat))),
        ],
    )
}

/// The response document of the newest-stable resolution.
pub open spec fn newest_response_model(version: Seq<char>) -> JsonModel {
    JsonModel::Obj(
        seq![("version"@, JsonModel::Text(version)), ("is_stable"@, JsonModel::Bool(true))],
    )
}

/// Serializes the full version list with its count.
pub fn list_ocsf_versions(_request: ListVersionsRequest) -> (r: String)
    ensures
        r@ == model_text(versions_response_model(builtin_version_list()), Seq::<char>::empty()),
{
    let versions = OcsfSchema::list_versions();
    let count = versions.len();
    let response = VersionsResponse { versions, count };
    let arr = text_array(&response.versions);
    let mut f: Vec<(String, JsonValue)> = Vec::new();
    proof {
        assert(fields_model(f@) =~= Seq::<(Seq<char>, JsonModel)>::empty());
    }
    model_push(&mut f, "versions", arr);
    model_push(&mut f, "count", json_num_u64(response.count as u64));
    let v = JsonValue::Obj(f);
    proof {
        assert(fields_model(f@) =~= versions_response_model(builtin_version_list())->Obj_0);
    }
    render_json(&v)
}

/// Resolves the newest stable version and serializes it; fails when every
/// stored version is a pre-release.
pub fn get_newest_ocsf_version(_request: GetNewestVersionRequest) -> (r: Result<
    String,
    OcsfError,
>)
    ensures
        match r {
            Ok(s) => exists|v: Seq<char>|
                {
                    &&& version_known(v)
                    &&& is_stable_version(v)
                    &&& forall|k: int|
                        0 <= k < builtin_version_list().len() && is_stable_version(
                            #[trigger] builtin_version_list()[k],
                        ) ==> lex_le(builtin_version_list()[k], v)
                    &&& s@ == model_text(#[trigger] newest_response_model(v), Seq::<char>::empty())
                },
            Err(e) => {
                &&& e == OcsfError::NoStableVersion
                &&& forall|k: int|
                    0 <= k < builtin_version_list().len() ==> !is_stable_version(
                        #[trigger] builtin_version_list()[k],
                    )
            },
        },
{
    let version = match OcsfSchema::get_newest_stable_version() {
        Ok(v) => v,
        Err(e) => {
            return Err(e);
        },
    };
    let response = NewestVersionResponse { version, is_stable: true };
    let mut f: Vec<(String, JsonValue)> = Vec::new();
    proof {
        assert(fields_model(f@) =~= Seq::<(Seq<char>, JsonModel)>::empty());
    }
    let ghost picked = response.version@;
    model_push(&mut f, "version", JsonValue::Text(response.version));
    model_push(&mut f, "is_stable", JsonValue::Bool(response.is_stable));
    let v = JsonValue::Obj(f);
    proof {
        assert(fields_model(f@) =~= newest_response_model(picked)->Obj_0);
    }
    let out = render_json(&v);
    Ok(out)
}

} // verus!
