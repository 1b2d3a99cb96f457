//! The wire shape of an ingestion request and its validation.

use vstd::prelude::*;

use crate::models::options::spec_get;
use crate::models::options::str_field;
use crate::models::options::SpecValue;
use crate::models::options::Value;

verus! {

/// An accepted ingestion request: timestamp and message are required,
/// the rest is optional.
#[derive(Debug)]
pub struct HogRequest {
    pub log_timestamp: String,
    pub log_level: Option<String>,
    pub log_message: String,
    pub log_data: Option<Value>,
    pub log_type: Option<String>,
    pub log_source: Option<String>,
    pub log_source_id: Option<String>,
}

/// The mathematical shape of a [`HogRequest`].
pub ghost struct HogRequestView {
    pub log_timestamp: Seq<char>,
    pub log_level: Option<Seq<char>>,
    pub log_message: Seq<char>,
    pub log_data: Option<SpecValue>,
    pub log_type: Option<Seq<char>>,
    pub log_source: Option<Seq<char>>,
    pub log_source_id: Option<Seq<char>>,
}

impl View for HogRequest {
    type V = HogRequestView;

    open spec fn view(&self) -> HogRequestView {
        HogRequestView {
            log_timestamp: self.log_timestamp@,
            log_level: self.log_level.deep_view(),
            log_message: self.log_message@,
            log_data: self.log_data.deep_view(),
            log_type: self.log_type.deep_view(),
            log_source: self.log_source.deep_view(),
            log_source_id: self.log_source_id.deep_view(),
        }
    }
}

/// One field-level validation finding.
#[derive(Debug)]
pub struct ApiErrorSchema {
    pub field: String,
    pub message: String,
}

/// The error body handed back when validation fails.
#[derive(Debug)]
pub struct ErrorResponse {
    pub status_code: u16,
    pub message: String,
    pub errors: Vec<ApiErrorSchema>,
}

/// The findings as pairs of field name and message text.
pub open spec fn errors_view(es: Seq<ApiErrorSchema>) -> Seq<(Seq<char>, Seq<char>)> {
    es.map_values(|e: ApiErrorSchema| (e.field@, e.message@))
}

/// The findings that validation reports for a request, in report
/// order: the timestamp and the message must be string fields, and
/// structured data, when present, must be an object.
pub open spec fn validate_findings(req: SpecValue) -> Seq<(Seq<char>, Seq<char>)> {
    (if str_field(req, "log_timestamp"@) is None {
        seq![("log_timestamp"@, "log_timestamp is required"@)]
    } else {
        Seq::empty()
    }) + (if str_field(req, "log_message"@) is None {
        seq![("log_message"@, "log_message is required"@)]
    } else {
        Seq::empty()
    }) + (match spec_get(req, "log_data"@) {
        Option::Some(v) => if !(v is Object) {
            seq![("log_data"@, "log_data must be a valid JSON object"@)]
        } else {
            Seq::empty()
        },
        Option::None => Seq::empty(),
    })
}

/// Validates one ingestion request. The request is accepted exactly
/// when validation reports no finding; the accepted value carries the
/// request's fields over unchanged.
pub fn validate(req: &Value) -> (r: Result<HogRequest, ErrorResponse>)
    ensures
        r is Ok <==> validate_findings(req@).len() == 0,
        r matches Err(resp) ==> resp.status_code == 400 && resp.message@ == "Validation failed"@
            && errors_view(resp.errors@) == validate_findings(req@),
        r matches Ok(hr) ==> {
            &&& Some(hr@.log_timestamp) == str_field(req@, "log_timestamp"@)
            &&& Some(hr@.log_message) == str_field(req@, "log_message"@)
            &&& hr@.log_level == str_field(req@, "log_level"@)
            &&& hr@.log_data == spec_get(req@, "log_data"@)
            &&& hr@.log_type == str_field(req@, "log_type"@)
            &&& hr@.log_source == str_field(req@, "log_source"@)
            &&& hr@.log_source_id == str_field(req@, "log_source_id"@)
        },
{
    let mut errors: Vec<ApiErrorSchema> = Vec::new();

    let log_timestamp = match req.get_str_field("log_timestamp") {
        Some(ts) => ts,
        None => {
            errors.push(
                ApiErrorSchema {
                    field: "log_timestamp".to_owned(),
                    message: "log_timestamp is required".to_owned(),
                },
            );
            String::new()
        },
    };

    let log_message = match req.get_str_field("log_message") {
        Some(msg) => msg,
        None => {
            errors.push(
                ApiErrorSchema {
                    field: "log_message".to_owned(),
                    message: "log_message is required".to_owned(),
                },
            );
            String::new()
        },
    };

    let payload = req.get_field_cloned("log_data");
    let payload_is_object = match &payload {
        Some(val) => val.is_object(),
        None => true,
    };
    if !payload_is_object {
        errors.push(
            ApiErrorSchema {
                field: "log_data".to_owned(),
                message: "log_data must be a valid JSON object".to_owned(),
            },
        );
    }

    proof {
        assert(errors_view(errors@) =~= validate_findings(req@));
    }

    if errors.len() > 0 {
        return Err(
            ErrorResponse {
                status_code: 400,
                message: "Validation failed".to_owned(),
                errors,
            },
        );
    }

    let log_level = req.get_str_field("log_level");
    let log_data = payload;
    let log_type = req.get_str_field("log_type");
    let log_source = req.get_str_field("log_source");
    let log_source_id = req.get_str_field("log_source_id");

    Ok(
        HogRequest {
            log_timestamp,
            log_level,
            log_message,
            log_data,
            log_type,
            log_source,
            log_source_id,
        },
    )
}

} // verus!
