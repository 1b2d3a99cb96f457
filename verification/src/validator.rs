//! Schema validation of the ingestion request against the library's
//! error types.

use vstd::prelude::*;

use crate::errors::ApiErrorField;
use crate::errors::ValidationError;
use crate::models::hog_client_schema::HogRequest;
use crate::models::options::spec_get;
use crate::models::options::str_field;
use crate::models::options::SpecValue;
use crate::models::options::Value;

verus! {

/// The findings as pairs of field name and message text.
pub open spec fn fields_view(es: Seq<ApiErrorField>) -> Seq<(Seq<char>, Seq<char>)> {
    es.map_values(|e: ApiErrorField| (e.field@, e.message@))
}

/// The findings that schema validation reports for a request, in
/// report order: the timestamp and the message must be string fields.
pub open spec fn schema_findings(req: SpecValue) -> Seq<(Seq<char>, Seq<char>)> {
    (if str_field(req, "log_timestamp"@) is None {
        seq![("log_timestamp"@, "log_timestamp is required"@)]
    } else {
        Seq::empty()
    }) + (if str_field(req, "log_message"@) is None {
        seq![("log_message"@, "log_message is required"@)]
    } else {
        Seq::empty()
    })
}

/// Validates one ingestion request against the schema. The request is
/// accepted exactly when validation reports no finding; the accepted
/// value carries the request's fields over unchanged.
pub fn validate_hog_client_schema(req: &Value) -> (r: Result<HogRequest, ValidationError>)
    ensures
        r is Ok <==> schema_findings(req@).len() == 0,
        r matches Err(e) ==> fields_view(e.errors@) == schema_findings(req@),
        r matches Ok(hr) ==> {
            &&& Some(hr@.log_timestamp) == str_field(req@, "log_timestamp"@)
            &&& Some(hr@.log_message) == str_field(req@, "log_message"@)
            &&& hr@.log_level == str_field(req@, "log_level"@)
            &&& hr@.log_data == spec_get(req@, "log_data"@)
            &&& hr@.log_type == str_field(req@, "log_type"@)
            &&& hr@.log_source == str_field(req@, "log_source"@)
            &&& hr@.log_source_id == str_field(req@, "log_source_id"@)
        },
{
    let mut errors: Vec<ApiErrorField> = Vec::new();

    let log_timestamp = match req.get_str_field("log_timestamp") {
        Some(ts) => ts,
        None => {
            errors.push(
                ApiErrorField {
                    field: "log_timestamp".to_owned(),
                    message: "log_timestamp is required".to_owned(),
                },
            );
            String::new()
        },
    };

    let log_message = match req.get_str_field("log_message") {
        Some(msg) => msg,
        None => {
            errors.push(
                ApiErrorField {
                    field: "log_message".to_owned(),
                    message: "log_message is required".to_owned(),
                },
            );
            String::new()
        },
    };

    proof {
        assert(fields_view(errors@) =~= schema_findings(req@));
    }

    if errors.len() > 0 {
        return Err(ValidationError::new(errors));
    }

    let log_level = req.get_str_field("log_level");
    let log_data = req.get_field_cloned("log_data");
    let log_type = req.get_str_field("log_type");
    let log_source = req.get_str_field("log_source");
    let log_source_id = req.get_str_field("log_source_id");

    Ok(
        HogRequest {
            log_timestamp,
            log_level,
            log_message,
            log_data,
            log_type,
            log_source,
            log_source_id,
        },
    )
}

} // verus!
