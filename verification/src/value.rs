//! The values that cross the attribute surface of a policy, and the errors
//! that the surface answers with.

use crate::assoc::{entries_view, Entries};
use crate::text::{ends_with, has_suffix, join};
use vstd::prelude::*;
use vstd::string::StringExecFns;

verus! {

/// The mathematical value of a [`Value`].
pub enum ValueView {
    Absent,
    Bool(bool),
    Str(Seq<char>),
    Dict(Entries),
    Other { type_label: Seq<char>, text: Seq<char> },
}

/// A dynamically typed value, as the configuration language hands it over
/// or takes it back.
#[derive(Debug, PartialEq, Eq)]
pub enum Value {
    /// The absent value.
    Absent,
    /// A truth value.
    Bool(bool),
    /// A text.
    Str(String),
    /// A mapping from texts to texts, in the order of its entries.
    Dict(Vec<(String, String)>),
    /// A value of any other type, by the name of its type and its rendering.
    Other { type_label: String, text: String },
}

impl View for Value {
    type V = ValueView;

    open spec fn view(&self) -> ValueView {
        match self {
            Value::Absent => ValueView::Absent,
            Value::Bool(b) => ValueView::Bool(*b),
            Value::Str(s) => ValueView::Str(s@),
            Value::Dict(d) => ValueView::Dict(entries_view(d@)),
            Value::Other { type_label, text } => ValueView::Other {
                type_label: type_label@,
                text: text@,
            },
        }
    }
}

/// The name of the type of a value.
pub open spec fn type_label_of(v: ValueView) -> Seq<char> {
    match v {
        ValueView::Absent => "NoneType"@,
        ValueView::Bool(_) => "bool"@,
        ValueView::Str(_) => "string"@,
        ValueView::Dict(_) => "dict"@,
        ValueView::Other { type_label, .. } => type_label,
    }
}

/// The rendering of the entries of a mapping: each as its key, a colon and
/// its value, with a comma between two of them.
pub open spec fn render_entries(entries: Entries) -> Seq<char>
    decreases entries.len(),
{
    if entries.len() == 0 {
        Seq::empty()
    } else if entries.len() == 1 {
        entries[0].0 + ": "@ + entries[0].1
    } else {
        render_entries(entries.drop_last()) + ", "@ + entries.last().0 + ": "@ + entries.last().1
    }
}

/// The rendering of a value: the absent value as `None`, a truth value as
/// `True` or `False`, a text as itself, a mapping as its entries in braces,
/// and any other value as the rendering that it carries.
pub open spec fn render_value(v: ValueView) -> Seq<char> {
    match v {
        ValueView::Absent => "None"@,
        ValueView::Bool(b) => if b {
            "True"@
        } else {
            "False"@
        },
        ValueView::Str(s) => s,
        ValueView::Dict(entries) => "{"@ + render_entries(entries) + "}"@,
        ValueView::Other { text, .. } => text,
    }
}

/// The rendering of the entries of a mapping.
fn entries_text(entries: &Vec<(String, String)>) -> (r: String)
    ensures
        r@ == render_entries(entries_view(entries@)),
{
    let ghost all = entries_view(entries@);
    let mut r = String::new();
    let mut i: usize = 0;
    while i < entries.len()
        invariant
            i <= entries.len(),
            all == entries_view(entries@),
            r@ == render_entries(all.take(i as int)),
        decreases entries.len() - i,
    {
        let ghost before = r@;
        if i > 0 {
            r.append(", ");
        }
        r.append(entries[i].0.as_str());
        r.append(": ");
        r.append(entries[i].1.as_str());
        proof {
            let longer = all.take(i + 1);
            assert(longer.drop_last() =~= all.take(i as int));
            assert(longer.last() == (entries[i as int].0@, entries[i as int].1@));
            if i == 0 {
                assert(longer[0] == longer.last());
                assert(before =~= Seq::<char>::empty());
                assert(r@ =~= longer[0].0 + ": "@ + longer[0].1);
            } else {
                assert(r@ =~= before + ", "@ + longer.last().0 + ": "@ + longer.last().1);
            }
        }
        i += 1;
    }
    proof {
        assert(all.take(entries.len() as int) =~= all);
    }
    r
}

impl Value {
    /// The rendering of this value, as it stands in the label of an error.
    pub fn to_text(&self) -> (r: String)
        ensures
            r@ == render_value(self@),
    {
        match self {
            Value::Absent => String::from_str("None"),
            Value::Bool(b) => if *b {
                String::from_str("True")
            } else {
                String::from_str("False")
            },
            Value::Str(s) => s.clone(),
            Value::Dict(entries) => join("{", entries_text(entries).as_str()).concat("}"),
            Value::Other { text, .. } => text.clone(),
        }
    }

    /// The name of the type of this value: `NoneType`, `bool`, `string`,
    /// `dict`, or the name that a value of another type carries.
    pub fn get_type(&self) -> (r: String)
        ensures
            r@ == type_label_of(self@),
    {
        match self {
            Value::Absent => String::from_str("NoneType"),
            Value::Bool(_) => String::from_str("bool"),
            Value::Str(_) => String::from_str("string"),
            Value::Dict(_) => String::from_str("dict"),
            Value::Other { type_label, .. } => type_label.clone(),
        }
    }
}

/// Whether an attribute was read or written.
#[derive(Clone, Copy, Debug, PartialEq, Eq, Structural)]
pub enum AttributeOperation {
    Read,
    Write,
}

/// The mathematical value of a [`PolicyError`].
pub enum ErrorView {
    UnknownAttribute { operation: AttributeOperation, attribute: Seq<char> },
    Validation { attribute: Seq<char>, value: ValueView, message: Seq<char> },
    Callback { index: nat, message: Seq<char> },
    ConfigurationConflict { resource: Seq<char> },
}

/// Why an operation on a policy failed. Every error ends the operation that
/// raised it; none is retried.
#[derive(Debug, PartialEq, Eq)]
pub enum PolicyError {
    /// An attribute outside the fixed surface was read or written.
    UnknownAttribute { operation: AttributeOperation, attribute: String },
    /// A value of the wrong type, or a text outside an enumeration's
    /// vocabulary, was offered; the setting kept its earlier value.
    Validation { attribute: String, value: Value, message: String },
    /// The registered callback at `index` failed; the callbacks behind it
    /// did not run.
    Callback { index: usize, message: String },
    /// The placement that the named resource requires cannot be satisfied
    /// under the policy on this platform.
    ConfigurationConflict { resource: String },
}

impl View for PolicyError {
    type V = ErrorView;

    open spec fn view(&self) -> ErrorView {
        match self {
            PolicyError::UnknownAttribute { operation, attribute } => ErrorView::UnknownAttribute {
                operation: *operation,
                attribute: attribute@,
            },
            PolicyError::Validation { attribute, value, message } => ErrorView::Validation {
                attribute: attribute@,
                value: value@,
                message: message@,
            },
            PolicyError::Callback { index, message } => ErrorView::Callback {
                index: *index as nat,
                message: message@,
            },
            PolicyError::ConfigurationConflict { resource } => ErrorView::ConfigurationConflict {
                resource: resource@,
            },
        }
    }
}

/// The name under which the policy type is known to the configuration
/// language.
pub open spec fn policy_type_label() -> Seq<char> {
    "PythonPackagingPolicy"@
}

/// The stable code of an error.
pub open spec fn error_code(e: ErrorView) -> Seq<char> {
    match e {
        ErrorView::UnknownAttribute { .. } => "UNSUPPORTED_OPERATION"@,
        ErrorView::Validation { .. } => "PYOXIDIZER_BUILD"@,
        ErrorView::Callback { .. } => "CALLBACK_FAILED"@,
        ErrorView::ConfigurationConflict { .. } => "CONFIGURATION_CONFLICT"@,
    }
}

/// The path of what an error is about: the attribute or method behind the
/// type's name and a dot, or the resource's name.
pub open spec fn error_path(e: ErrorView) -> Seq<char> {
    match e {
        ErrorView::UnknownAttribute { attribute, .. } => policy_type_label() + "."@ + attribute,
        ErrorView::Validation { attribute, .. } => policy_type_label() + "."@ + attribute,
        ErrorView::Callback { .. } => policy_type_label() + ".register_resource_callback()"@,
        ErrorView::ConfigurationConflict { resource } => resource,
    }
}

/// The label of an error. For a refused write to an option it is the
/// option's path, an equals sign and the rendering of the refused value; for
/// a refused call of a method, whose name ends in `()`, it is the method's
/// name; for any other error it is the error's path.
pub open spec fn error_label(e: ErrorView) -> Seq<char> {
    match e {
        ErrorView::Validation { attribute, value, .. } => if has_suffix(attribute, "()"@) {
            attribute
        } else {
            policy_type_label() + "."@ + attribute + " = "@ + render_value(value)
        },
        _ => error_path(e),
    }
}

impl PolicyError {
    /// The label of this error.
    pub fn label(&self) -> (r: String)
        ensures
            r@ == error_label(self@),
    {
        match self {
            PolicyError::Validation { attribute, value, .. } => {
                if ends_with(attribute.as_str(), "()") {
                    attribute.clone()
                } else {
                    let mut r = self.path();
                    r.append(" = ");
                    r.append(value.to_text().as_str());
                    r
                }
            },
            _ => self.path(),
        }
    }

    /// The stable code of this error.
    pub fn code(&self) -> (r: String)
        ensures
            r@ == error_code(self@),
    {
        match self {
            PolicyError::UnknownAttribute { .. } => String::from_str("UNSUPPORTED_OPERATION"),
            PolicyError::Validation { .. } => String::from_str("PYOXIDIZER_BUILD"),
            PolicyError::Callback { .. } => String::from_str("CALLBACK_FAILED"),
            PolicyError::ConfigurationConflict { .. } => String::from_str("CONFIGURATION_CONFLICT"),
        }
    }

    /// The path of what this error is about.
    pub fn path(&self) -> (r: String)
        ensures
            r@ == error_path(self@),
    {
        match self {
            PolicyError::UnknownAttribute { attribute, .. } => join("PythonPackagingPolicy", ".").concat(
                attribute.as_str(),
            ),
            PolicyError::Validation { attribute, .. } => join("PythonPackagingPolicy", ".").concat(
                attribute.as_str(),
            ),
            PolicyError::Callback { .. } => join(
                "PythonPackagingPolicy",
                ".register_resource_callback()",
            ),
            PolicyError::ConfigurationConflict { resource } => resource.clone(),
        }
    }
}

} // verus!
