//! Listings: what each entry OpenDAL lists becomes, and the result a
//! listing by delimiter builds entry by entry.

use vstd::prelude::*;

use crate::error::StoreError;
use crate::meta::{format_object_meta, modified_or_epoch, opt_string_view, EntryMetadata, ObjectEntry};
use crate::path::{
    encode_listed_key, invalid_listed_path, listed_location, normalize_location, normalized_text, opt_view,
    prefix_matches, url_path_parsed,
};

verus! {

/// What a listing by delimiter does with an entry.
#[derive(Clone, Copy, Debug, PartialEq, Eq, Structural)]
pub enum EntryAction {
    /// A directory: report it as a common prefix.
    CommonPrefix,
    /// An object whose listed metadata is complete: report it.
    Object,
    /// An object listed without a modification time: look its metadata up
    /// first, then report it.
    StatFirst,
}

/// What a listing by delimiter does with an entry of this metadata.
pub fn delimited_entry_action(meta: &EntryMetadata) -> (a: EntryAction)
    ensures
        a == if meta.is_dir {
            EntryAction::CommonPrefix
        } else if meta.last_modified is Some {
            EntryAction::Object
        } else {
            EntryAction::StatFirst
        },
{
    if meta.is_dir {
        EntryAction::CommonPrefix
    } else if meta.last_modified.is_some() {
        EntryAction::Object
    } else {
        EntryAction::StatFirst
    }
}

/// Whether a listing from an offset looks an entry's metadata up before
/// reporting it: only a file listed without a modification time.
pub fn offset_entry_needs_stat(meta: &EntryMetadata) -> (stat: bool)
    ensures
        stat <==> !meta.is_dir && meta.last_modified is None,
{
    !meta.is_dir && meta.last_modified.is_none()
}

/// `r` is what a listing under `prefix` reports of the object listed
/// under `key` with metadata `meta`: the object's description, at the
/// location normalized against the prefix.
pub open spec fn listed_as(r: Result<ObjectEntry, StoreError>, key: Seq<char>, meta: EntryMetadata, prefix: Option<Seq<char>>) -> bool {
    match normalized_text(listed_location(key), prefix) {
        Some(t) => r matches Ok(e) && e.location@ == t && e.last_modified == modified_or_epoch(meta.last_modified)
            && e.size == meta.content_length && opt_string_view(e.e_tag) == opt_string_view(meta.etag)
            && opt_string_view(e.version) == opt_string_view(meta.version),
        None => r matches Err(err) && invalid_listed_path(err, listed_location(key)),
    }
}

/// A listing reports an entry at the location `Path::from` builds from its
/// key where there is no prefix or that location lies under the prefix,
/// else at that location's reading as a URL path; the length, entity tag
/// and version are OpenDAL's.
pub proof fn lemma_listed_entry(r: Result<ObjectEntry, StoreError>, key: Seq<char>, meta: EntryMetadata, prefix: Option<Seq<char>>)
    requires
        listed_as(r, key, meta, prefix),
    ensures
        (prefix is None || prefix_matches(listed_location(key), prefix->0)) ==> (r matches Ok(e)
            && e.location@ == listed_location(key)),
        (prefix is Some && !prefix_matches(listed_location(key), prefix->0)) ==> (r is Ok <==> url_path_parsed(
            listed_location(key),
        ) is Some),
        r matches Ok(e) ==> e.size == meta.content_length && opt_string_view(e.e_tag) == opt_string_view(
            meta.etag,
        ) && opt_string_view(e.version) == opt_string_view(meta.version),
{
}

/// Gives an object's description the location normalized against the
/// listing's prefix.
pub fn normalize_object_meta(meta: ObjectEntry, prefix: Option<&str>) -> (r: Result<ObjectEntry, StoreError>)
    ensures
        match normalized_text(meta.location@, opt_view(prefix)) {
            Some(t) => r matches Ok(e) && e.location@ == t && e.last_modified == meta.last_modified && e.size
                == meta.size && opt_string_view(e.e_tag) == opt_string_view(meta.e_tag) && opt_string_view(
                e.version,
            ) == opt_string_view(meta.version),
            None => r matches Err(err) && invalid_listed_path(err, meta.location@),
        },
{
    let location = normalize_location(meta.location.as_str(), prefix)?;
    Ok(ObjectEntry { location, ..meta })
}

/// What a listing under `prefix` reports of the object listed under `key`
/// with metadata `meta`.
pub fn list_entry(key: &str, meta: &EntryMetadata, prefix: Option<&str>) -> (r: Result<ObjectEntry, StoreError>)
    ensures
        listed_as(r, key@, *meta, opt_view(prefix)),
{
    normalize_object_meta(format_object_meta(key, meta), prefix)
}

/// The result a listing by delimiter builds: the directories directly
/// under the prefix and the objects directly under it.
pub struct DelimitedListing {
    /// Directories, as their normalized locations.
    pub common_prefixes: Vec<String>,
    /// Objects.
    pub objects: Vec<ObjectEntry>,
}

impl DelimitedListing {
    /// An empty listing.
    pub fn new() -> (l: Self)
        ensures
            l.common_prefixes@.len() == 0,
            l.objects@.len() == 0,
    {
        DelimitedListing { common_prefixes: Vec::new(), objects: Vec::new() }
    }

    /// Adds the directory listed under `key`, at its location normalized
    /// against `prefix`; nothing changes where that location is no valid
    /// path.
    pub fn add_directory(&mut self, key: &str, prefix: Option<&str>) -> (r: Result<(), StoreError>)
        ensures
            final(self).objects@ == old(self).objects@,
            match normalized_text(listed_location(key@), opt_view(prefix)) {
                Some(t) => r is Ok && final(self).common_prefixes@.len() == old(self).common_prefixes@.len() + 1
                    && final(self).common_prefixes@.drop_last() == old(self).common_prefixes@ && final(self).common_prefixes@.last()@ == t,
                None => r matches Err(err) && invalid_listed_path(err, listed_location(key@)) && final(self).common_prefixes@ == old(self).common_prefixes@,
            },
    {
        let location = encode_listed_key(key);
        let normalized = normalize_location(location.as_str(), prefix)?;
        self.common_prefixes.push(normalized);
        Ok(())
    }

    /// Adds the object listed under `key` with metadata `meta`; nothing
    /// changes where its location is no valid path.
    pub fn add_object(&mut self, key: &str, meta: &EntryMetadata, prefix: Option<&str>) -> (r: Result<(), StoreError>)
        ensures
            final(self).common_prefixes@ == old(self).common_prefixes@,
            match normalized_text(listed_location(key@), opt_view(prefix)) {
                Some(_) => r is Ok && final(self).objects@.len() == old(self).objects@.len() + 1
                    && final(self).objects@.drop_last() == old(self).objects@ && listed_as(
                    Ok(final(self).objects@.last()),
                    key@,
                    *meta,
                    opt_view(prefix),
                ),
                None => r matches Err(err) && invalid_listed_path(err, listed_location(key@)) && final(self).objects@ == old(self).objects@,
            },
    {
        let entry = list_entry(key, meta, prefix)?;
        self.objects.push(entry);
        Ok(())
    }
}

} // verus!
