use crate::models::wire::{Number, WireValue};
use vstd::prelude::*;
use vstd::string::StringExecFns;

verus! {

/// Represents a hyperlink to a dashboard, report, sheet, or URL.
///
/// When the hyperlink is a URL link, the `url` property contains the URL
/// value; when it is a report, sheet, or dashboard link, exactly one of
/// the id fields should be set — a convention of the service that the
/// type itself does not enforce.
#[derive(Debug, Clone)]
pub struct Hyperlink {
    /// The URL, or the permalink of the linked resource.
    pub url: String,
    /// If non-null, this hyperlink is a link to the report with this Id.
    pub report_id: Option<u64>,
    /// If non-null, this hyperlink is a link to the sheet with this Id.
    pub sheet_id: Option<u64>,
    /// If non-null, this hyperlink is a link to the dashboard with this Id.
    pub sight_id: Option<u64>,
}

impl Hyperlink {
    /// Create a new `Hyperlink` object with a **url**.
    pub fn with_url(url: &str) -> (r: Self)
        ensures
            r.url@ == url@,
            r.report_id is None,
            r.sheet_id is None,
            r.sight_id is None,
    {
        Self { url: url.to_owned(), report_id: None, sheet_id: None, sight_id: None }
    }
}

/// The outbound wire object for a hyperlink: the `url` key only when the
/// URL is non-empty, then one key per resource id that is set, and no
/// other key.
pub open spec fn hyperlink_write_obj(h: Hyperlink, w: WireValue) -> bool {
    &&& w is Obj
    &&& {
        let fs = w->Obj_0@;
        let has_url: int = if h.url@.len() > 0 {
            1
        } else {
            0
        };
        let has_report: int = if h.report_id is Some {
            1
        } else {
            0
        };
        let has_sheet: int = if h.sheet_id is Some {
            1
        } else {
            0
        };
        &&& fs.len() == has_url + has_report + has_sheet + (if h.sight_id is Some {
            1int
        } else {
            0
        })
        &&& (h.url@.len() > 0 ==> {
            &&& fs[0].0@ == "url"@
            &&& fs[0].1 matches WireValue::Str(s) && s@ == h.url@
        })
        &&& (h.report_id matches Some(id) ==> (fs[has_url].0@ == "reportId"@ && fs[has_url].1
            == WireValue::Num(Number::spec_norm(false, id, 0))))
        &&& (h.sheet_id matches Some(id) ==> (fs[has_url + has_report].0@ == "sheetId"@ && fs[
            has_url + has_report
        ].1 == WireValue::Num(Number::spec_norm(false, id, 0))))
        &&& (h.sight_id matches Some(id) ==> (fs[has_url + has_report + has_sheet].0@ == "sightId"@
            && fs[has_url + has_report + has_sheet].1 == WireValue::Num(
            Number::spec_norm(false, id, 0),
        )))
    }
}

impl Hyperlink {
    /// The outbound wire object for this hyperlink, leaving an empty URL
    /// and unset resource ids out.
    pub fn into_write_value(self) -> (r: WireValue)
        ensures
            hyperlink_write_obj(self, r),
    {
        let Hyperlink { url, report_id, sheet_id, sight_id } = self;
        let mut fields: Vec<(String, WireValue)> = Vec::new();
        if !url.as_str().is_empty() {
            fields.push(("url".to_owned(), WireValue::Str(url)));
        }
        if let Some(id) = report_id {
            fields.push(("reportId".to_owned(), WireValue::Num(Number::from_u64(id))));
        }
        if let Some(id) = sheet_id {
            fields.push(("sheetId".to_owned(), WireValue::Num(Number::from_u64(id))));
        }
        if let Some(id) = sight_id {
            fields.push(("sightId".to_owned(), WireValue::Num(Number::from_u64(id))));
        }
        WireValue::Obj(fields)
    }
}

impl Default for Hyperlink {
    /// An empty link: no URL and no linked resource.
    fn default() -> (r: Self)
        ensures
            r.url@ == Seq::<char>::empty(),
            r.report_id is None,
            r.sheet_id is None,
            r.sight_id is None,
    {
        Self { url: String::new(), report_id: None, sheet_id: None, sight_id: None }
    }
}

} // verus!
