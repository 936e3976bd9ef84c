use vstd::prelude::*;
use crate::models::{
    has_category, is_first_named, quota_sum, quota_sum_except_at, category_in_use, Category, MetronData,
    MetronError,
};

verus! {

/// Index of the first category named `name`, if there is one.
pub fn find_category(cats: &Vec<Category>, name: &String) -> (r: Option<usize>)
    ensures
        r is None <==> !has_category(cats@, name@),
        r matches Some(i) ==> i < cats@.len() && cats@[i as int].name@ == name@ && forall|j: int|
            0 <= j < i ==> #[trigger] cats@[j].name@ != name@,
{
    let mut i: usize = 0;
    while i < cats.len()
        invariant
            i <= cats@.len(),
            forall|j: int| 0 <= j < i ==> #[trigger] cats@[j].name@ != name@,
        decreases cats.len() - i,
    {
        if cats[i].name == *name {
            return Some(i);
        }
        i += 1;
    }
    None
}

/// Sum of all category quotas, in hours.
pub fn sum_quotas(cats: &Vec<Category>) -> (r: u128)
    ensures
        r == quota_sum(cats@),
        r <= 0xffff_ffff_ffff_ffff_ffff_ffff,
{
    let mut sum: u128 = 0;
    let mut i: usize = 0;
    while i < cats.len()
        invariant
            i <= cats@.len(),
            sum == quota_sum(cats@.subrange(0, i as int)),
            sum <= i * 0xffff_ffff,
        decreases cats.len() - i,
    {
        assert(cats@.subrange(0, i + 1).drop_last() =~= cats@.subrange(0, i as int));
        sum = sum + cats[i].category_weekly_quota as u128;
        i += 1;
    }
    assert(cats@.subrange(0, cats@.len() as int) =~= cats@);
    assert(sum <= 0xffff_ffff_ffff_ffff_ffff_ffff) by (nonlinear_arith)
        requires
            sum <= i * 0xffff_ffff,
            i <= 0xffff_ffff_ffff_ffff,
    ;
    sum
}

/// Sum of the quotas of all categories but the one at index `skip`, in hours.
pub fn sum_quotas_except_at(cats: &Vec<Category>, skip: usize) -> (r: u128)
    ensures
        r == quota_sum_except_at(cats@, skip as int),
        r <= 0xffff_ffff_ffff_ffff_ffff_ffff,
{
    let mut sum: u128 = 0;
    let mut i: usize = 0;
    while i < cats.len()
        invariant
            i <= cats@.len(),
            sum == quota_sum_except_at(cats@.subrange(0, i as int), skip as int),
            sum <= i * 0xffff_ffff,
        decreases cats.len() - i,
    {
        assert(cats@.subrange(0, i + 1).drop_last() =~= cats@.subrange(0, i as int));
        if i != skip {
            sum = sum + cats[i].category_weekly_quota as u128;
        }
        i += 1;
    }
    assert(cats@.subrange(0, cats@.len() as int) =~= cats@);
    assert(sum <= 0xffff_ffff_ffff_ffff_ffff_ffff) by (nonlinear_arith)
        requires
            sum <= i * 0xffff_ffff,
            i <= 0xffff_ffff_ffff_ffff,
    ;
    sum
}

/// Whether some session names `name` as its category.
pub fn sessions_use_category(data: &MetronData, name: &String) -> (r: bool)
    ensures
        r == category_in_use(data.sessions@, name@),
{
    let mut i: usize = 0;
    while i < data.sessions.len()
        invariant
            i <= data.sessions@.len(),
            forall|j: int| 0 <= j < i ==> #[trigger] data.sessions@[j].category@ != name@,
        decreases data.sessions.len() - i,
    {
        if data.sessions[i].category == *name {
            return true;
        }
        i += 1;
    }
    false
}

/// Leaving out an index past the end changes no sum.
proof fn lemma_except_past_end(cats: Seq<Category>, i: int)
    requires
        i >= cats.len(),
    ensures
        quota_sum_except_at(cats, i) == quota_sum(cats),
    decreases cats.len(),
{
    if cats.len() > 0 {
        lemma_except_past_end(cats.drop_last(), i);
    }
}

/// After replacing the category at `i`, the sum is the others' sum plus the new quota.
proof fn lemma_sum_after_update(cats: Seq<Category>, i: int, c: Category)
    requires
        0 <= i < cats.len(),
    ensures
        quota_sum(cats.update(i, c)) == quota_sum_except_at(cats, i) + c.category_weekly_quota,
    decreases cats.len(),
{
    let u = cats.update(i, c);
    if i == cats.len() - 1 {
        assert(u.drop_last() =~= cats.drop_last());
        lemma_except_past_end(cats.drop_last(), i);
    } else {
        assert(u.drop_last() =~= cats.drop_last().update(i, c));
        lemma_sum_after_update(cats.drop_last(), i, c);
    }
}

/// What became of a request that may need the user's consent.
#[derive(Clone, Copy, Debug, PartialEq, Eq, Structural)]
pub enum DeleteOutcome {
    Deleted,
    Cancelled,
}

/// A summary of the categories for display.
pub struct CategoryListing {
    pub categories: Vec<Category>,
    /// Sum of all category quotas, in hours.
    pub total_used: u128,
    pub total_quota: Option<u32>,
}

/// Creates, updates and deletes categories so that their quotas stay within
/// the total weekly quota.
pub struct CategoryManager {
    pub data: MetronData,
}

impl CategoryManager {
    pub fn new(data: MetronData) -> (r: Self)
        ensures
            r.data == data,
    {
        CategoryManager { data }
    }

    /// Hands the store back.
    pub fn into_data(self) -> (r: MetronData)
        ensures
            r == self.data,
    {
        self.data
    }

    /// Adds a category named `name` with a weekly quota of `quota` hours.
    pub fn create_category(&mut self, name: String, quota: u32) -> (r: Result<(), MetronError>)
        ensures
            has_category(old(self).data.categories@, name@) ==> r == Err::<(), MetronError>(
                MetronError::DuplicateName,
            ),
            !has_category(old(self).data.categories@, name@) && (old(self).data.total_weekly_quota matches Some(t) && quota_sum(old(self).data.categories@)
                + quota > t) ==> r == Err::<(), MetronError>(MetronError::QuotaExceeded),
            r is Err ==> final(self).data == old(self).data,
            r is Ok <==> !has_category(old(self).data.categories@, name@) && !(old(self).data.total_weekly_quota matches Some(t) && quota_sum(old(self).data.categories@)
                + quota > t),
            r is Ok ==> final(self).data.categories@ == old(self).data.categories@.push(
                Category { name: name, category_weekly_quota: quota },
            ) && final(self).data.tags == old(self).data.tags && final(self).data.sessions == old(self).data.sessions && final(self).data.total_weekly_quota == old(self).data.total_weekly_quota,
            old(self).data.quota_ok() ==> final(self).data.quota_ok(),
            old(self).data.unique_category_names() ==> final(self).data.unique_category_names(),
    {
        if find_category(&self.data.categories, &name).is_some() {
            return Err(MetronError::DuplicateName);
        }
        if let Some(total) = self.data.total_weekly_quota {
            let current = sum_quotas(&self.data.categories);
            if current + quota as u128 > total as u128 {
                return Err(MetronError::QuotaExceeded);
            }
        }
        let ghost old_cats = self.data.categories@;
        let category = Category { name, category_weekly_quota: quota };
        self.data.categories.push(category);
        assert(self.data.categories@.drop_last() =~= old_cats);
        Ok(())
    }

    /// The categories with the sum of their quotas and the total, if set.
    pub fn list_categories(&self) -> (r: CategoryListing)
        ensures
            r.categories@ == self.data.categories@,
            r.total_used == quota_sum(self.data.categories@),
            r.total_quota == self.data.total_weekly_quota,
    {
        let mut categories: Vec<Category> = Vec::new();
        let mut i: usize = 0;
        while i < self.data.categories.len()
            invariant
                i <= self.data.categories@.len(),
                categories@ == self.data.categories@.subrange(0, i as int),
            decreases self.data.categories.len() - i,
        {
            let c = &self.data.categories[i];
            categories.push(Category { name: c.name.clone(), category_weekly_quota: c.category_weekly_quota });
            i += 1;
            assert(categories@ =~= self.data.categories@.subrange(0, i as int));
        }
        assert(categories@ =~= self.data.categories@);
        CategoryListing {
            categories,
            total_used: sum_quotas(&self.data.categories),
            total_quota: self.data.total_weekly_quota,
        }
    }

    /// Sets the weekly quota of the first category named `name` to `quota` hours.
    pub fn update_category(&mut self, name: String, quota: u32) -> (r: Result<(), MetronError>)
        ensures
            !has_category(old(self).data.categories@, name@) ==> r == Err::<(), MetronError>(
                MetronError::CategoryNotFound,
            ),
            forall|i: int|
                is_first_named(old(self).data.categories@, name@, i) ==> {
                    let over = old(self).data.total_weekly_quota matches Some(t)
                        && quota_sum_except_at(old(self).data.categories@, i) + quota > t;
                    &&& over ==> r == Err::<(), MetronError>(MetronError::QuotaExceeded)
                    &&& r is Ok <==> !over
                },
            r is Err ==> final(self).data == old(self).data,
            r is Ok ==> exists|i: int|
                0 <= i < old(self).data.categories@.len() && old(self).data.categories@[i].name@ == name@ && (forall|j: int|
                    0 <= j < i ==> #[trigger] old(self).data.categories@[j].name@ != name@)
                    && final(self).data.categories@ == old(self).data.categories@.update(
                    i,
                    Category { name: old(self).data.categories@[i].name, category_weekly_quota: quota },
                ),
            r is Ok ==> final(self).data.tags == old(self).data.tags && final(self).data.sessions
                == old(self).data.sessions && final(self).data.total_weekly_quota == old(self).data.total_weekly_quota,
            old(self).data.quota_ok() ==> final(self).data.quota_ok(),
            old(self).data.unique_category_names() ==> final(self).data.unique_category_names(),
    {
        match find_category(&self.data.categories, &name) {
            None => Err(MetronError::CategoryNotFound),
            Some(i) => {
                if let Some(total) = self.data.total_weekly_quota {
                    let others = sum_quotas_except_at(&self.data.categories, i);
                    if others + quota as u128 > total as u128 {
                        return Err(MetronError::QuotaExceeded);
                    }
                }
                let ghost old_cats = self.data.categories@;
                let old_name = self.data.categories[i].name.clone();
                self.data.categories.set(i, Category { name: old_name, category_weekly_quota: quota });
                let ghost updated = Category { name: old_cats[i as int].name, category_weekly_quota: quota };
                assert(self.data.categories@ == old_cats.update(i as int, updated));
                proof {
                    lemma_sum_after_update(old_cats, i as int, updated);
                    if old(self).data.unique_category_names() {
                        let new_cats = self.data.categories@;
                        assert forall|a: int, b: int| 0 <= a < b < new_cats.len() implies new_cats[a].name@
                            != new_cats[b].name@ by {
                            assert(new_cats[a].name@ == old_cats[a].name@);
                            assert(new_cats[b].name@ == old_cats[b].name@);
                        }
                    }
                }
                Ok(())
            },
        }
    }

    /// Whether deleting the category `name` needs the user's consent, because
    /// sessions refer to it.
    pub fn category_needs_confirmation(&self, name: &String) -> (r: bool)
        ensures
            r == category_in_use(self.data.sessions@, name@),
    {
        sessions_use_category(&self.data, name)
    }

    /// Removes the first category named `name`. Where sessions refer to it,
    /// it goes only if `confirmed`; the sessions keep their reference.
    pub fn delete_category(&mut self, name: String, confirmed: bool) -> (r: Result<
        DeleteOutcome,
        MetronError,
    >)
        ensures
            !has_category(old(self).data.categories@, name@) <==> r == Err::<
                DeleteOutcome,
                MetronError,
            >(MetronError::CategoryNotFound),
            has_category(old(self).data.categories@, name@) && category_in_use(
                old(self).data.sessions@,
                name@,
            ) && !confirmed <==> r == Ok::<DeleteOutcome, MetronError>(DeleteOutcome::Cancelled),
            has_category(old(self).data.categories@, name@) && (!category_in_use(
                old(self).data.sessions@,
                name@,
            ) || confirmed) ==> r == Ok::<DeleteOutcome, MetronError>(DeleteOutcome::Deleted),
            r != Ok::<DeleteOutcome, MetronError>(DeleteOutcome::Deleted) ==> final(self).data == old(self).data,
            r == Ok::<DeleteOutcome, MetronError>(DeleteOutcome::Deleted) ==> exists|i: int|
                0 <= i < old(self).data.categories@.len() && old(self).data.categories@[i].name@ == name@ && (forall|j: int|
                    0 <= j < i ==> #[trigger] old(self).data.categories@[j].name@ != name@)
                    && final(self).data.categories@ == old(self).data.categories@.remove(i),
            r == Ok::<DeleteOutcome, MetronError>(DeleteOutcome::Deleted) ==> final(self).data.tags
                == old(self).data.tags && final(self).data.sessions == old(self).data.sessions
                && final(self).data.total_weekly_quota == old(self).data.total_weekly_quota,
    {
        match find_category(&self.data.categories, &name) {
            None => Err(MetronError::CategoryNotFound),
            Some(i) => {
                if sessions_use_category(&self.data, &name) && !confirmed {
                    return Ok(DeleteOutcome::Cancelled);
                }
                self.data.categories.remove(i);
                Ok(DeleteOutcome::Deleted)
            },
        }
    }
}

} // verus!
