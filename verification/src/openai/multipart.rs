//! Handing a form over to the transport, in the transport's own form type.

use vstd::prelude::*;

use crate::openai::body::{MultipartForm, Part, PartView};

verus! {

/// `reqwest::multipart::Form`, the transport's multipart form.
#[verifier::external_type_specification]
#[verifier::external_body]
pub struct ExTransportForm(reqwest::multipart::Form);

/// The parts that a form of the transport holds, in the order in which
/// they were added.
pub uninterp spec fn spec_transport_parts(form: reqwest::multipart::Form) -> Seq<PartView>;

/// `Form::new`: a form without parts.
#[verifier::external_body]
fn transport_form() -> (form: reqwest::multipart::Form)
    ensures
        spec_transport_parts(form) == Seq::<PartView>::empty(),
{
    reqwest::multipart::Form::new()
}

/// `Form::text`: the form with one more part, a text field of the given
/// name and text, behind the parts that it had.
#[verifier::external_body]
fn transport_text(form: reqwest::multipart::Form, name: String, value: String) -> (extended:
    reqwest::multipart::Form)
    ensures
        spec_transport_parts(extended) == spec_transport_parts(form).push(
            PartView::Text { name: name@, value: value@ },
        ),
{
    form.text(name, value)
}

/// `Form::part` with a part made by `Part::bytes` and `Part::file_name`:
/// the form with one more part, the given bytes under the given file name,
/// behind the parts that it had.
#[verifier::external_body]
fn transport_file(
    form: reqwest::multipart::Form,
    name: String,
    file_name: String,
    bytes: Vec<u8>,
) -> (extended: reqwest::multipart::Form)
    ensures
        spec_transport_parts(extended) == spec_transport_parts(form).push(
            PartView::File { name: name@, file_name: file_name@, bytes: bytes@ },
        ),
{
    form.part(name, reqwest::multipart::Part::bytes(bytes).file_name(file_name))
}

/// Copies a run of bytes.
fn copy_bytes(bytes: &Vec<u8>) -> (copy: Vec<u8>)
    ensures
        copy@ == bytes@,
{
    let mut copy: Vec<u8> = Vec::new();
    let mut i: usize = 0;
    while i < bytes.len()
        invariant
            i <= bytes.len(),
            copy@ == bytes@.take(i as int),
        decreases bytes.len() - i,
    {
        copy.push(bytes[i]);
        assert(bytes@.take(i + 1) =~= bytes@.take(i as int).push(bytes[i as int]));
        i = i + 1;
    }
    assert(bytes@.take(i as int) =~= bytes@);
    copy
}

impl MultipartForm {
    /// The same form in the transport's own form type: the same parts, in
    /// the same order.
    pub fn to_transport(&self) -> (form: reqwest::multipart::Form)
        ensures
            spec_transport_parts(form) == self@,
    {
        let mut form = transport_form();
        let mut i: usize = 0;
        while i < self.parts.len()
            invariant
                i <= self.parts.len(),
                spec_transport_parts(form) == self@.take(i as int),
            decreases self.parts.len() - i,
        {
            assert(self@.take(i + 1) =~= self@.take(i as int).push(self.parts[i as int]@));
            form = match &self.parts[i] {
                Part::Text { name, value } => transport_text(form, name.clone(), value.clone()),
                Part::File { name, file_name, bytes } => transport_file(
                    form,
                    name.clone(),
                    file_name.clone(),
                    copy_bytes(bytes),
                ),
            };
            i = i + 1;
        }
        assert(self@.take(i as int) =~= self@);
        form
    }
}

} // verus!
