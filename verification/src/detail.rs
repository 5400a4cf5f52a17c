//! The decrypted detail of an item: a login form description, or the
//! generic sections-of-fields shape used by every other category.

use vstd::prelude::*;

use crate::json;
use crate::Error;

verus! {

/// An item's decrypted detail, dispatched on the item's category.
pub enum Detail {
    Login(Login),
    Generic(Generic),
}

/// The detail shape of a login item.
pub struct Login {
    pub html_form: Option<HtmlForm>,
    pub fields: Vec<LoginField>,
}

pub struct HtmlForm {
    pub html_id: Option<String>,
    pub html_name: Option<String>,
    pub html_method: String,
}

#[derive(Debug, Clone, Copy, PartialEq, Eq, Structural)]
pub enum LoginFieldKind {
    Text,
    Password,
    I,
    Checkbox,
    Button,
    Email,
    S,
}

pub struct LoginField {
    pub kind: LoginFieldKind,
    pub name: String,
    pub value: String,
    pub designation: Option<String>,
}

/// The generic detail shape: sections of typed fields.
pub struct Generic {
    pub sections: Vec<Section>,
    pub notes_plain: Option<String>,
}

pub struct Section {
    pub name: String,
    pub title: String,
    pub fields: Vec<Field>,
}

#[derive(Debug, Clone, Copy, PartialEq, Eq, Structural)]
pub enum FieldKind {
    String,
    Gender,
    Date,
    MonthYear,
    Menu,
    Cctype,
    Concealed,
    Address,
    Email,
    Phone,
    URL,
}

pub enum FieldValue {
    String(String),
    Address(Address),
    I64(i64),
}

pub struct Field {
    pub kind: FieldKind,
    pub name: String,
    pub value: Option<FieldValue>,
    pub attr: Option<Attributes>,
}

pub struct Address {
    pub city: Option<String>,
    pub zip: Option<String>,
    pub state: Option<String>,
    pub country: Option<String>,
    pub street: Option<String>,
}

pub struct Attributes {
    pub guarded: Option<String>,
    pub clipboard_filter: Option<String>,
    pub generate: Option<String>,
}

/// The login-field type letter: `T`, `P`, `I`, `C`, `B`, `E` or `S`.
pub open spec fn spec_login_field_kind(s: Seq<u8>) -> Option<LoginFieldKind> {
    if s.len() != 1 {
        None
    } else if s[0] == 84 {
        Some(LoginFieldKind::Text)
    } else if s[0] == 80 {
        Some(LoginFieldKind::Password)
    } else if s[0] == 73 {
        Some(LoginFieldKind::I)
    } else if s[0] == 67 {
        Some(LoginFieldKind::Checkbox)
    } else if s[0] == 66 {
        Some(LoginFieldKind::Button)
    } else if s[0] == 69 {
        Some(LoginFieldKind::Email)
    } else if s[0] == 83 {
        Some(LoginFieldKind::S)
    } else {
        None
    }
}

/// Map a login-field type letter to its kind.
pub fn login_field_kind_from_code(s: &[u8]) -> (r: Option<LoginFieldKind>)
    ensures
        r == spec_login_field_kind(s@),
{
    if s.len() != 1 {
        return None;
    }
    let b = *vstd::slice::slice_index_get(s, 0);
    if b == 84 {
        Some(LoginFieldKind::Text)
    } else if b == 80 {
        Some(LoginFieldKind::Password)
    } else if b == 73 {
        Some(LoginFieldKind::I)
    } else if b == 67 {
        Some(LoginFieldKind::Checkbox)
    } else if b == 66 {
        Some(LoginFieldKind::Button)
    } else if b == 69 {
        Some(LoginFieldKind::Email)
    } else if b == 83 {
        Some(LoginFieldKind::S)
    } else {
        None
    }
}

/// The generic-field kind names, camel-cased as they stand in the JSON.
pub open spec fn spec_field_kind(s: Seq<u8>) -> Option<FieldKind> {
    if s.len() == 6 && s[0] == 115 && s[1] == 116 && s[2] == 114 && s[3] == 105 && s[4] == 110 && s[5] == 103 {
        Some(FieldKind::String)
    } else if s.len() == 6 && s[0] == 103 && s[1] == 101 && s[2] == 110 && s[3] == 100 && s[4] == 101 && s[5] == 114 {
        Some(FieldKind::Gender)
    } else if s.len() == 4 && s[0] == 100 && s[1] == 97 && s[2] == 116 && s[3] == 101 {
        Some(FieldKind::Date)
    } else if s.len() == 9 && s[0] == 109 && s[1] == 111 && s[2] == 110 && s[3] == 116 && s[4] == 104 && s[5] == 89 && s[6] == 101 && s[7] == 97 && s[8] == 114 {
        Some(FieldKind::MonthYear)
    } else if s.len() == 4 && s[0] == 109 && s[1] == 101 && s[2] == 110 && s[3] == 117 {
        Some(FieldKind::Menu)
    } else if s.len() == 6 && s[0] == 99 && s[1] == 99 && s[2] == 116 && s[3] == 121 && s[4] == 112 && s[5] == 101 {
        Some(FieldKind::Cctype)
    } else if s.len() == 9 && s[0] == 99 && s[1] == 111 && s[2] == 110 && s[3] == 99 && s[4] == 101 && s[5] == 97 && s[6] == 108 && s[7] == 101 && s[8] == 100 {
        Some(FieldKind::Concealed)
    } else if s.len() == 7 && s[0] == 97 && s[1] == 100 && s[2] == 100 && s[3] == 114 && s[4] == 101 && s[5] == 115 && s[6] == 115 {
        Some(FieldKind::Address)
    } else if s.len() == 5 && s[0] == 101 && s[1] == 109 && s[2] == 97 && s[3] == 105 && s[4] == 108 {
        Some(FieldKind::Email)
    } else if s.len() == 5 && s[0] == 112 && s[1] == 104 && s[2] == 111 && s[3] == 110 && s[4] == 101 {
        Some(FieldKind::Phone)
    } else if s.len() == 3 && s[0] == 85 && s[1] == 82 && s[2] == 76 {
        Some(FieldKind::URL)
    } else {
        None
    }
}

/// Map a generic-field kind name to its kind.
pub fn field_kind_from_code(s: &[u8]) -> (r: Option<FieldKind>)
    ensures
        r == spec_field_kind(s@),
{
    let n = s.len();
    if n == 6
        && *vstd::slice::slice_index_get(s, 0) == 115
        && *vstd::slice::slice_index_get(s, 1) == 116
        && *vstd::slice::slice_index_get(s, 2) == 114
        && *vstd::slice::slice_index_get(s, 3) == 105
        && *vstd::slice::slice_index_get(s, 4) == 110
        && *vstd::slice::slice_index_get(s, 5) == 103 {
        Some(FieldKind::String)
    } else if n == 6
        && *vstd::slice::slice_index_get(s, 0) == 103
        && *vstd::slice::slice_index_get(s, 1) == 101
        && *vstd::slice::slice_index_get(s, 2) == 110
        && *vstd::slice::slice_index_get(s, 3) == 100
        && *vstd::slice::slice_index_get(s, 4) == 101
        && *vstd::slice::slice_index_get(s, 5) == 114 {
        Some(FieldKind::Gender)
    } else if n == 4
        && *vstd::slice::slice_index_get(s, 0) == 100
        && *vstd::slice::slice_index_get(s, 1) == 97
        && *vstd::slice::slice_index_get(s, 2) == 116
        && *vstd::slice::slice_index_get(s, 3) == 101 {
        Some(FieldKind::Date)
    } else if n == 9
        && *vstd::slice::slice_index_get(s, 0) == 109
        && *vstd::slice::slice_index_get(s, 1) == 111
        && *vstd::slice::slice_index_get(s, 2) == 110
        && *vstd::slice::slice_index_get(s, 3) == 116
        && *vstd::slice::slice_index_get(s, 4) == 104
        && *vstd::slice::slice_index_get(s, 5) == 89
        && *vstd::slice::slice_index_get(s, 6) == 101
        && *vstd::slice::slice_index_get(s, 7) == 97
        && *vstd::slice::slice_index_get(s, 8) == 114 {
        Some(FieldKind::MonthYear)
    } else if n == 4
        && *vstd::slice::slice_index_get(s, 0) == 109
        && *vstd::slice::slice_index_get(s, 1) == 101
        && *vstd::slice::slice_index_get(s, 2) == 110
        && *vstd::slice::slice_index_get(s, 3) == 117 {
        Some(FieldKind::Menu)
    } else if n == 6
        && *vstd::slice::slice_index_get(s, 0) == 99
        && *vstd::slice::slice_index_get(s, 1) == 99
        && *vstd::slice::slice_index_get(s, 2) == 116
        && *vstd::slice::slice_index_get(s, 3) == 121
        && *vstd::slice::slice_index_get(s, 4) == 112
        && *vstd::slice::slice_index_get(s, 5) == 101 {
        Some(FieldKind::Cctype)
    } else if n == 9
        && *vstd::slice::slice_index_get(s, 0) == 99
        && *vstd::slice::slice_index_get(s, 1) == 111
        && *vstd::slice::slice_index_get(s, 2) == 110
        && *vstd::slice::slice_index_get(s, 3) == 99
        && *vstd::slice::slice_index_get(s, 4) == 101
        && *vstd::slice::slice_index_get(s, 5) == 97
        && *vstd::slice::slice_index_get(s, 6) == 108
        && *vstd::slice::slice_index_get(s, 7) == 101
        && *vstd::slice::slice_index_get(s, 8) == 100 {
        Some(FieldKind::Concealed)
    } else if n == 7
        && *vstd::slice::slice_index_get(s, 0) == 97
        && *vstd::slice::slice_index_get(s, 1) == 100
        && *vstd::slice::slice_index_get(s, 2) == 100
        && *vstd::slice::slice_index_get(s, 3) == 114
        && *vstd::slice::slice_index_get(s, 4) == 101
        && *vstd::slice::slice_index_get(s, 5) == 115
        && *vstd::slice::slice_index_get(s, 6) == 115 {
        Some(FieldKind::Address)
    } else if n == 5
        && *vstd::slice::slice_index_get(s, 0) == 101
        && *vstd::slice::slice_index_get(s, 1) == 109
        && *vstd::slice::slice_index_get(s, 2) == 97
        && *vstd::slice::slice_index_get(s, 3) == 105
        && *vstd::slice::slice_index_get(s, 4) == 108 {
        Some(FieldKind::Email)
    } else if n == 5
        && *vstd::slice::slice_index_get(s, 0) == 112
        && *vstd::slice::slice_index_get(s, 1) == 104
        && *vstd::slice::slice_index_get(s, 2) == 111
        && *vstd::slice::slice_index_get(s, 3) == 110
        && *vstd::slice::slice_index_get(s, 4) == 101 {
        Some(FieldKind::Phone)
    } else if n == 3
        && *vstd::slice::slice_index_get(s, 0) == 85
        && *vstd::slice::slice_index_get(s, 1) == 82
        && *vstd::slice::slice_index_get(s, 2) == 76 {
        Some(FieldKind::URL)
    } else {
        None
    }
}


/// Pull a required string member out of an object.
fn get_string(v: &serde_json::Value, key: &str) -> Option<String> {
    match json::json_get(v, key) {
        Some(x) => json::json_str_string(x),
        None => None,
    }
}

impl Login {
    /// Parse a login detail from decrypted JSON bytes.
    pub fn from_slice(s: &[u8]) -> (r: Result<Login, Error>)
        ensures
            r matches Err(e) ==> e == Error::JsonError,
    {
        let v = match json::json_parse(s) {
            Some(v) => v,
            None => {
                return Err(Error::JsonError);
            },
        };
        let html_form = match json::json_get(&v, "htmlForm") {
            Some(x) => match parse_html_form(x) {
                Some(f) => Some(f),
                None => {
                    return Err(Error::JsonError);
                },
            },
            None => None,
        };
        let fields = match json::json_get(&v, "fields") {
            Some(x) => match parse_login_fields(x) {
                Some(f) => f,
                None => {
                    return Err(Error::JsonError);
                },
            },
            None => Vec::new(),
        };
        Ok(Login { html_form, fields })
    }
}

fn parse_html_form(v: &serde_json::Value) -> Option<HtmlForm> {
    let html_method = match get_string(v, "htmlMethod") {
        Some(s) => s,
        None => {
            return None;
        },
    };
    let html_id = match json::json_get(v, "htmlId") {
        Some(x) => match json::json_str_string(x) {
            Some(s) => Some(s),
            None => {
                return None;
            },
        },
        None => None,
    };
    let html_name = match json::json_get(v, "htmlName") {
        Some(x) => match json::json_str_string(x) {
            Some(s) => Some(s),
            None => {
                return None;
            },
        },
        None => None,
    };
    Some(HtmlForm { html_id, html_name, html_method })
}

fn parse_login_fields(v: &serde_json::Value) -> Option<Vec<LoginField>> {
    let n = match json::json_array_len(v) {
        Some(n) => n,
        None => {
            return None;
        },
    };
    let mut out: Vec<LoginField> = Vec::new();
    let mut i: usize = 0;
    while i < n
        decreases n - i,
    {
        let e = match json::json_array_get(v, i) {
            Some(e) => e,
            None => {
                return None;
            },
        };
        let kind_text = match json::json_get(e, "type") {
            Some(x) => match json::json_str_bytes(x) {
                Some(b) => b,
                None => {
                    return None;
                },
            },
            None => {
                return None;
            },
        };
        let kind = match login_field_kind_from_code(kind_text.as_slice()) {
            Some(k) => k,
            None => {
                return None;
            },
        };
        let name = match get_string(e, "name") {
            Some(s) => s,
            None => {
                return None;
            },
        };
        let value = match get_string(e, "value") {
            Some(s) => s,
            None => {
                return None;
            },
        };
        let designation = match json::json_get(e, "designation") {
            Some(x) => match json::json_str_string(x) {
                Some(s) => Some(s),
                None => {
                    return None;
                },
            },
            None => None,
        };
        out.push(LoginField { kind, name, value, designation });
        i = i + 1;
    }
    Some(out)
}

impl Generic {
    /// Parse a generic detail from decrypted JSON bytes.
    pub fn from_slice(s: &[u8]) -> (r: Result<Generic, Error>)
        ensures
            r matches Err(e) ==> e == Error::JsonError,
    {
        let v = match json::json_parse(s) {
            Some(v) => v,
            None => {
                return Err(Error::JsonError);
            },
        };
        let sections = match json::json_get(&v, "sections") {
            Some(x) => match parse_sections(x) {
                Some(secs) => secs,
                None => {
                    return Err(Error::JsonError);
                },
            },
            None => Vec::new(),
        };
        let notes_plain = match json::json_get(&v, "notesPlain") {
            Some(x) => match json::json_str_string(x) {
                Some(s) => Some(s),
                None => {
                    return Err(Error::JsonError);
                },
            },
            None => None,
        };
        Ok(Generic { sections, notes_plain })
    }
}

fn parse_sections(v: &serde_json::Value) -> Option<Vec<Section>> {
    let n = match json::json_array_len(v) {
        Some(n) => n,
        None => {
            return None;
        },
    };
    let mut out: Vec<Section> = Vec::new();
    let mut i: usize = 0;
    while i < n
        decreases n - i,
    {
        let e = match json::json_array_get(v, i) {
            Some(e) => e,
            None => {
                return None;
            },
        };
        let name = match get_string(e, "name") {
            Some(s) => s,
            None => {
                return None;
            },
        };
        let title = match get_string(e, "title") {
            Some(s) => s,
            None => {
                return None;
            },
        };
        let fields = match json::json_get(e, "fields") {
            Some(x) => match parse_fields(x) {
                Some(f) => f,
                None => {
                    return None;
                },
            },
            None => {
                return None;
            },
        };
        out.push(Section { name, title, fields });
        i = i + 1;
    }
    Some(out)
}

fn parse_fields(v: &serde_json::Value) -> Option<Vec<Field>> {
    let n = match json::json_array_len(v) {
        Some(n) => n,
        None => {
            return None;
        },
    };
    let mut out: Vec<Field> = Vec::new();
    let mut i: usize = 0;
    while i < n
        decreases n - i,
    {
        let e = match json::json_array_get(v, i) {
            Some(e) => e,
            None => {
                return None;
            },
        };
        let kind_text = match json::json_get(e, "k") {
            Some(x) => match json::json_str_bytes(x) {
                Some(b) => b,
                None => {
                    return None;
                },
            },
            None => {
                return None;
            },
        };
        let kind = match field_kind_from_code(kind_text.as_slice()) {
            Some(k) => k,
            None => {
                return None;
            },
        };
        let name = match get_string(e, "n") {
            Some(s) => s,
            None => {
                return None;
            },
        };
        let value = match json::json_get(e, "v") {
            Some(x) => match parse_field_value(x) {
                Some(fv) => Some(fv),
                None => {
                    return None;
                },
            },
            None => None,
        };
        let attr = match json::json_get(e, "a") {
            Some(x) => match parse_attributes(x) {
                Some(a) => Some(a),
                None => {
                    return None;
                },
            },
            None => None,
        };
        out.push(Field { kind, name, value, attr });
        i = i + 1;
    }
    Some(out)
}

/// A field value is untagged in the JSON: a string, an address object, or
/// an integer, tried in that order.
fn parse_field_value(v: &serde_json::Value) -> Option<FieldValue> {
    if let Some(s) = json::json_str_string(v) {
        return Some(FieldValue::String(s));
    }
    if json::json_object_keys(v).is_some() {
        return parse_address(v).map(|a| FieldValue::Address(a));
    }
    if let Some(n) = json::json_i64(v) {
        return Some(FieldValue::I64(n));
    }
    None
}

fn parse_address(v: &serde_json::Value) -> Option<Address> {
    let city = match json::json_get(v, "city") {
        Some(x) => match json::json_str_string(x) {
            Some(s) => Some(s),
            None => {
                return None;
            },
        },
        None => None,
    };
    let zip = match json::json_get(v, "zip") {
        Some(x) => match json::json_str_string(x) {
            Some(s) => Some(s),
            None => {
                return None;
            },
        },
        None => None,
    };
    let state = match json::json_get(v, "state") {
        Some(x) => match json::json_str_string(x) {
            Some(s) => Some(s),
            None => {
                return None;
            },
        },
        None => None,
    };
    let country = match json::json_get(v, "country") {
        Some(x) => match json::json_str_string(x) {
            Some(s) => Some(s),
            None => {
                return None;
            },
        },
        None => None,
    };
    let street = match json::json_get(v, "street") {
        Some(x) => match json::json_str_string(x) {
            Some(s) => Some(s),
            None => {
                return None;
            },
        },
        None => None,
    };
    Some(Address { city, zip, state, country, street })
}

fn parse_attributes(v: &serde_json::Value) -> Option<Attributes> {
    let guarded = match json::json_get(v, "guarded") {
        Some(x) => match json::json_str_string(x) {
            Some(s) => Some(s),
            None => {
                return None;
            },
        },
        None => None,
    };
    let clipboard_filter = match json::json_get(v, "clipboardFilter") {
        Some(x) => match json::json_str_string(x) {
            Some(s) => Some(s),
            None => {
                return None;
            },
        },
        None => None,
    };
    let generate = match json::json_get(v, "generate") {
        Some(x) => match json::json_str_string(x) {
            Some(s) => Some(s),
            None => {
                return None;
            },
        },
        None => None,
    };
    Some(Attributes { guarded, clipboard_filter, generate })
}

} // verus!
