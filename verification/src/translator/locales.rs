//! The locales an app supports.
use crate::assoc::string_views;
use vstd::prelude::*;

verus! {

/// Defines app information about i18n, specifically about which locales are
/// supported.
#[derive(Clone)]
pub struct Locales {
    /// The default locale, used as a fallback if the user's locale can't be
    /// extracted.
    pub default: String,
    /// All other supported locales.
    pub other: Vec<String>,
}

/// The views of a vector of string references.
pub open spec fn ref_views(v: Seq<&String>) -> Seq<Seq<char>> {
    v.map_values(|s: &String| s@)
}

impl Locales {
    /// All supported locales: the default, then the others in order.
    pub open spec fn all_spec(&self) -> Seq<Seq<char>> {
        seq![self.default@] + string_views(self.other@)
    }

    /// Gets all the supported locales by combining the default, and other.
    pub fn get_all(&self) -> (r: Vec<&String>)
        ensures
            ref_views(r@) == self.all_spec(),
    {
        let mut v: Vec<&String> = Vec::new();
        v.push(&self.default);
        assert(string_views(self.other@).take(0) == Seq::<Seq<char>>::empty());
        assert(ref_views(v@) == seq![self.default@]);
        let mut i: usize = 0;
        while i < self.other.len()
            invariant
                i <= self.other.len(),
                ref_views(v@) == seq![self.default@] + string_views(self.other@).take(i as int),
            decreases self.other.len() - i,
        {
            let ghost before = v@;
            v.push(&self.other[i]);
            assert(ref_views(v@) == ref_views(before).push(self.other@[i as int]@));
            assert(string_views(self.other@).take(i + 1) == string_views(self.other@).take(i as int).push(
                self.other@[i as int]@,
            ));
            i = i + 1;
        }
        assert(string_views(self.other@).take(self.other.len() as int) == string_views(self.other@));
        v
    }

    /// Checks if the given locale is supported.
    pub fn is_supported(&self, locale: &str) -> (b: bool)
        ensures
            b == self.all_spec().contains(locale@),
    {
        let target = locale.to_owned();
        let locales = self.get_all();
        let mut i: usize = 0;
        while i < locales.len()
            invariant
                i <= locales.len(),
                ref_views(locales@) == self.all_spec(),
                target@ == locale@,
                forall|j: int| 0 <= j < i ==> self.all_spec()[j] != locale@,
            decreases locales.len() - i,
        {
            assert(ref_views(locales@)[i as int] == locales@[i as int]@);
            if *locales[i] == target {
                return true;
            }
            i = i + 1;
        }
        false
    }
}

} // verus!
