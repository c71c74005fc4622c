//! The manifest in the form in which the S3 client takes it.
//!
//! The client's `complete_multipart_upload` call wants the manifest as a
//! `CompletedMultipartUpload`. That value is made by the client library's own
//! builders, one call for each entry, and the loop around those calls is
//! verified here: every entry goes in, once, in the manifest's order.

use crate::protocol::PartResult;
use aws_sdk_s3::types::builders::CompletedMultipartUploadBuilder;
use aws_sdk_s3::types::{CompletedMultipartUpload, CompletedPart};
use vstd::prelude::*;

verus! {

#[verifier::external_type_specification]
#[verifier::external_body]
pub struct ExCompletedMultipartUploadBuilder(CompletedMultipartUploadBuilder);

#[verifier::external_type_specification]
#[verifier::external_body]
pub struct ExCompletedMultipartUpload(CompletedMultipartUpload);

/// The parts that a builder has been given so far, each as its part number
/// and its entity tag, in the order in which they were given.
pub uninterp spec fn builder_parts(builder: CompletedMultipartUploadBuilder) -> Seq<(int, Seq<char>)>;

/// The parts that a completed upload lists, each as its part number and its
/// entity tag, in the order of the list.
pub uninterp spec fn listed_parts(upload: CompletedMultipartUpload) -> Seq<(int, Seq<char>)>;

/// `CompletedMultipartUpload::builder`: a builder that has been given no part.
#[verifier::external_body]
fn new_builder() -> (builder: CompletedMultipartUploadBuilder)
    ensures
        builder_parts(builder) == Seq::<(int, Seq<char>)>::empty(),
{
    CompletedMultipartUpload::builder()
}

/// `CompletedMultipartUploadBuilder::parts`, handed a `CompletedPart` that
/// `CompletedPart::builder` made with `e_tag` and `part_number` set: the part
/// is appended behind those that the builder holds, which stay as they are.
#[verifier::external_body]
fn add_part(builder: CompletedMultipartUploadBuilder, part_number: i32, e_tag: &str) -> (grown:
    CompletedMultipartUploadBuilder)
    ensures
        builder_parts(grown) == builder_parts(builder).push((part_number as int, e_tag@)),
{
    builder.parts(CompletedPart::builder().e_tag(e_tag).part_number(part_number).build())
}

/// `CompletedMultipartUploadBuilder::build`: the upload lists the parts that
/// the builder was given, in the same order.
#[verifier::external_body]
fn build(builder: CompletedMultipartUploadBuilder) -> (upload: CompletedMultipartUpload)
    ensures
        listed_parts(upload) == builder_parts(builder),
{
    builder.build()
}

/// The entries of a manifest as pairs of part number and tag.
pub open spec fn manifest_pairs(manifest: Seq<PartResult>) -> Seq<(int, Seq<char>)> {
    Seq::new(manifest.len(), |i: int| (manifest[i].part_number as int, manifest[i].tag@))
}

/// Whether every part number of the manifest is one that the client can
/// carry, which holds its part numbers in an `i32`.
pub open spec fn fits_client(manifest: Seq<PartResult>) -> bool {
    forall|i: int| 0 <= i < manifest.len() ==> (#[trigger] manifest[i]).part_number <= i32::MAX
}

/// Puts a manifest in the form that the client's completion call takes: the
/// same pairs of part number and tag, in the same order. There is no such
/// form, and `None` is returned, exactly if a part number is beyond what the
/// client can carry.
pub fn to_completed_upload(manifest: &Vec<PartResult>) -> (upload: Option<CompletedMultipartUpload>)
    ensures
        upload is Some <==> fits_client(manifest@),
        upload matches Some(u) ==> listed_parts(u) == manifest_pairs(manifest@),
{
    let mut builder = new_builder();
    let mut i: usize = 0;
    while i < manifest.len()
        invariant
            i <= manifest@.len(),
            builder_parts(builder) == manifest_pairs(manifest@.take(i as int)),
            fits_client(manifest@.take(i as int)),
        decreases manifest@.len() - i,
    {
        let entry = &manifest[i];
        if entry.part_number > 2147483647u32 {
            assert(!fits_client(manifest@));
            return None;
        }
        let part_number = entry.part_number as i32;
        builder = add_part(builder, part_number, entry.tag.as_str());
        proof {
            let before = manifest@.take(i as int);
            let after = manifest@.take(i + 1);
            assert(after =~= before.push(manifest@[i as int]));
            assert(manifest_pairs(after) =~= manifest_pairs(before).push(
                (part_number as int, entry.tag@),
            ));
            assert forall|j: int| 0 <= j < after.len() implies (#[trigger] after[j]).part_number
                <= i32::MAX by {
                if j < i {
                    assert(after[j] == before[j]);
                }
            }
        }
        i = i + 1;
    }
    assert(manifest@.take(i as int) =~= manifest@);
    Some(build(builder))
}

} // verus!
