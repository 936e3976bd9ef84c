use vstd::prelude::*;
use crate::category_manager::DeleteOutcome;
use crate::models::{has_tag, tag_in_use, MetronData, MetronError, Tag, MAX_TAGS};

verus! {

/// Index of the first tag named `name`, if there is one.
pub fn find_tag(tags: &Vec<Tag>, name: &String) -> (r: Option<usize>)
    ensures
        r is None <==> !has_tag(tags@, name@),
        r matches Some(i) ==> i < tags@.len() && tags@[i as int].name@ == name@ && forall|j: int|
            0 <= j < i ==> #[trigger] tags@[j].name@ != name@,
{
    let mut i: usize = 0;
    while i < tags.len()
        invariant
            i <= tags@.len(),
            forall|j: int| 0 <= j < i ==> #[trigger] tags@[j].name@ != name@,
        decreases tags.len() - i,
    {
        if tags[i].name == *name {
            return Some(i);
        }
        i += 1;
    }
    None
}

/// Whether `name` occurs in `names`.
pub fn contains_name(names: &Vec<String>, name: &String) -> (r: bool)
    ensures
        r == exists|k: int| 0 <= k < names@.len() && #[trigger] names@[k]@ == name@,
{
    let mut k: usize = 0;
    while k < names.len()
        invariant
            k <= names@.len(),
            forall|j: int| 0 <= j < k ==> #[trigger] names@[j]@ != name@,
        decreases names.len() - k,
    {
        if names[k] == *name {
            return true;
        }
        k += 1;
    }
    false
}

/// Whether some session carries the tag `name`.
pub fn sessions_use_tag(data: &MetronData, name: &String) -> (r: bool)
    ensures
        r == tag_in_use(data.sessions@, name@),
{
    let mut i: usize = 0;
    while i < data.sessions.len()
        invariant
            i <= data.sessions@.len(),
            forall|j: int, k: int|
                0 <= j < i && 0 <= k < data.sessions@[j].tags@.len() ==> #[trigger] data.sessions@[j].tags@[k]@
                    != name@,
        decreases data.sessions.len() - i,
    {
        if contains_name(&data.sessions[i].tags, name) {
            return true;
        }
        i += 1;
    }
    false
}

/// The tags in creation order with the cap, for display.
pub struct TagListing {
    pub tags: Vec<Tag>,
    pub count: usize,
    pub limit: usize,
}

/// Creates and deletes tags, keeping at most seven.
pub struct TagManager {
    pub data: MetronData,
}

impl TagManager {
    pub fn new(data: MetronData) -> (r: Self)
        ensures
            r.data == data,
    {
        TagManager { data }
    }

    /// Hands the store back.
    pub fn into_data(self) -> (r: MetronData)
        ensures
            r == self.data,
    {
        self.data
    }

    /// Adds a tag named `name`.
    pub fn create_tag(&mut self, name: String) -> (r: Result<(), MetronError>)
        ensures
            has_tag(old(self).data.tags@, name@) ==> r == Err::<(), MetronError>(
                MetronError::DuplicateName,
            ),
            !has_tag(old(self).data.tags@, name@) && old(self).data.tags@.len() >= MAX_TAGS ==> r
                == Err::<(), MetronError>(MetronError::TagLimitExceeded),
            r is Ok <==> !has_tag(old(self).data.tags@, name@) && old(self).data.tags@.len()
                < MAX_TAGS,
            r is Err ==> final(self).data == old(self).data,
            r is Ok ==> final(self).data.tags@ == old(self).data.tags@.push(Tag { name: name })
                && final(self).data.categories == old(self).data.categories && final(self).data.sessions == old(self).data.sessions && final(self).data.total_weekly_quota
                == old(self).data.total_weekly_quota,
            old(self).data.tags_ok() ==> final(self).data.tags_ok(),
    {
        if find_tag(&self.data.tags, &name).is_some() {
            return Err(MetronError::DuplicateName);
        }
        if self.data.tags.len() >= MAX_TAGS {
            return Err(MetronError::TagLimitExceeded);
        }
        self.data.tags.push(Tag { name });
        Ok(())
    }

    /// The tags in creation order, their number and the cap.
    pub fn list_tags(&self) -> (r: TagListing)
        ensures
            r.tags@ == self.data.tags@,
            r.count == self.data.tags@.len(),
            r.limit == MAX_TAGS,
    {
        let mut tags: Vec<Tag> = Vec::new();
        let mut i: usize = 0;
        while i < self.data.tags.len()
            invariant
                i <= self.data.tags@.len(),
                tags@ == self.data.tags@.subrange(0, i as int),
            decreases self.data.tags.len() - i,
        {
            tags.push(Tag { name: self.data.tags[i].name.clone() });
            i += 1;
            assert(tags@ =~= self.data.tags@.subrange(0, i as int));
        }
        assert(tags@ =~= self.data.tags@);
        TagListing { tags, count: self.data.tags.len(), limit: MAX_TAGS }
    }

    /// Whether deleting the tag `name` needs the user's consent, because
    /// sessions carry it.
    pub fn tag_needs_confirmation(&self, name: &String) -> (r: bool)
        ensures
            r == tag_in_use(self.data.sessions@, name@),
    {
        sessions_use_tag(&self.data, name)
    }

    /// Removes the tag `name`. Where sessions carry it, it goes only if
    /// `confirmed`; the sessions keep their reference.
    pub fn delete_tag(&mut self, name: String, confirmed: bool) -> (r: Result<
        DeleteOutcome,
        MetronError,
    >)
        ensures
            !has_tag(old(self).data.tags@, name@) <==> r == Err::<DeleteOutcome, MetronError>(
                MetronError::TagNotFound,
            ),
            has_tag(old(self).data.tags@, name@) && tag_in_use(old(self).data.sessions@, name@)
                && !confirmed <==> r == Ok::<DeleteOutcome, MetronError>(DeleteOutcome::Cancelled),
            has_tag(old(self).data.tags@, name@) && (!tag_in_use(old(self).data.sessions@, name@)
                || confirmed) ==> r == Ok::<DeleteOutcome, MetronError>(DeleteOutcome::Deleted),
            r != Ok::<DeleteOutcome, MetronError>(DeleteOutcome::Deleted) ==> final(self).data == old(self).data,
            r == Ok::<DeleteOutcome, MetronError>(DeleteOutcome::Deleted) ==> exists|i: int|
                0 <= i < old(self).data.tags@.len() && old(self).data.tags@[i].name@ == name@
                    && (forall|j: int| 0 <= j < i ==> #[trigger] old(self).data.tags@[j].name@ != name@)
                    && final(self).data.tags@ == old(self).data.tags@.remove(i),
            r == Ok::<DeleteOutcome, MetronError>(DeleteOutcome::Deleted) ==> final(self).data.categories == old(self).data.categories && final(self).data.sessions == old(self).data.sessions && final(self).data.total_weekly_quota == old(self).data.total_weekly_quota,
    {
        match find_tag(&self.data.tags, &name) {
            None => Err(MetronError::TagNotFound),
            Some(i) => {
                if sessions_use_tag(&self.data, &name) && !confirmed {
                    return Ok(DeleteOutcome::Cancelled);
                }
                self.data.tags.remove(i);
                Ok(DeleteOutcome::Deleted)
            },
        }
    }
}

} // verus!
