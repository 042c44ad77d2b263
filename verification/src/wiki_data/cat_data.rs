//! Names of cats.

use crate::text::{lowercase, push_str, str_eq, string_from, to_lowercase};
use vstd::prelude::*;

verus! {

/// Names of a cat unit.
#[derive(Debug)]
pub struct CatName {
    /// Number of the unit.
    pub id: u32,
    /// Name of the first form.
    pub normal: String,
    /// Name of the evolved form.
    pub evolved: Option<String>,
    /// Name of the true form.
    pub true_form: Option<String>,
    /// Name of the ultra form.
    pub ultra: Option<String>,
    /// Name of the wiki page.
    pub page: String,
    /// Rarity of the unit.
    pub rarity: String,
}

/// Container for cat data: the names of every unit (indexed by unit
/// number) and replacements for names that need them on the wiki.
pub struct CatDataContainer {
    names: Vec<CatName>,
    replacements: Vec<(String, String)>,
}

/// Names of a cat's forms, in order.
pub open spec fn cat_forms(c: CatName) -> Seq<Seq<char>> {
    let a = seq![c.normal@];
    let b = match c.evolved {
        Some(n) => a.push(n@),
        None => a,
    };
    let t = match c.true_form {
        Some(n) => b.push(n@),
        None => b,
    };
    match c.ultra {
        Some(n) => t.push(n@),
        None => t,
    }
}

/// Does any of `forms` equal `name`, both in lowercase?
pub open spec fn any_form_lower(forms: Seq<Seq<char>>, name: Seq<char>) -> bool {
    exists|k: int| 0 <= k < forms.len() && lowercase(#[trigger] forms[k]) == lowercase(name)
}

/// Number of the first cat in `names` one of whose forms has the name
/// `name` in lowercase.
pub open spec fn first_cat_named(names: Seq<CatName>, name: Seq<char>) -> Option<u32>
    decreases names.len(),
{
    if names.len() == 0 {
        None
    } else if any_form_lower(cat_forms(names[0]), name) {
        Some(names[0].id)
    } else {
        first_cat_named(names.drop_first(), name)
    }
}

/// Value paired with the first key equal to `key`.
pub open spec fn lookup_pair(pairs: Seq<(String, String)>, key: Seq<char>) -> Option<Seq<char>>
    decreases pairs.len(),
{
    if pairs.len() == 0 {
        None
    } else if pairs[0].0@ == key {
        Some(pairs[0].1@)
    } else {
        lookup_pair(pairs.drop_first(), key)
    }
}

/// Law: a name lookup gives the number of the first cat with a form of that
/// name (ignoring case), and nothing only where no cat has one.
pub proof fn law_first_cat_named(names: Seq<CatName>, name: Seq<char>)
    ensures
        match first_cat_named(names, name) {
            Some(id) => exists|i: int|
                0 <= i < names.len() && (#[trigger] names[i]).id == id && any_form_lower(cat_forms(names[i]), name)
                    && forall|j: int| 0 <= j < i ==> !any_form_lower(cat_forms(#[trigger] names[j]), name),
            None => forall|i: int| 0 <= i < names.len() ==> !any_form_lower(cat_forms(#[trigger] names[i]), name),
        },
    decreases names.len(),
{
    if names.len() > 0 {
        let rest = names.drop_first();
        law_first_cat_named(rest, name);
        if !any_form_lower(cat_forms(names[0]), name) {
            match first_cat_named(rest, name) {
                Some(id) => {
                    let i = choose|i: int|
                        0 <= i < rest.len() && (#[trigger] rest[i]).id == id && any_form_lower(cat_forms(rest[i]), name)
                            && forall|j: int| 0 <= j < i ==> !any_form_lower(cat_forms(#[trigger] rest[j]), name);
                    assert(names[i + 1] == rest[i]);
                    assert forall|j: int| 0 <= j < i + 1 implies !any_form_lower(cat_forms(#[trigger] names[j]), name) by {
                        if j > 0 {
                            assert(names[j] == rest[j - 1]);
                        }
                    }
                },
                None => {
                    assert forall|i: int| 0 <= i < names.len() implies !any_form_lower(cat_forms(#[trigger] names[i]), name) by {
                        if i > 0 {
                            assert(names[i] == rest[i - 1]);
                        }
                    }
                },
            }
        }
    }
}

/// Law: a replacement lookup gives the value of the first pair whose key is
/// the name, and nothing only where no key is.
pub proof fn law_lookup_pair(pairs: Seq<(String, String)>, key: Seq<char>)
    ensures
        match lookup_pair(pairs, key) {
            Some(v) => exists|i: int|
                0 <= i < pairs.len() && (#[trigger] pairs[i]).0@ == key && pairs[i].1@ == v
                    && forall|j: int| 0 <= j < i ==> (#[trigger] pairs[j]).0@ != key,
            None => forall|i: int| 0 <= i < pairs.len() ==> (#[trigger] pairs[i]).0@ != key,
        },
    decreases pairs.len(),
{
    if pairs.len() > 0 {
        let rest = pairs.drop_first();
        law_lookup_pair(rest, key);
        if pairs[0].0@ != key {
            match lookup_pair(rest, key) {
                Some(v) => {
                    let i = choose|i: int|
                        0 <= i < rest.len() && (#[trigger] rest[i]).0@ == key && rest[i].1@ == v
                            && forall|j: int| 0 <= j < i ==> (#[trigger] rest[j]).0@ != key;
                    assert(pairs[i + 1] == rest[i]);
                    assert forall|j: int| 0 <= j < i + 1 implies (#[trigger] pairs[j]).0@ != key by {
                        if j > 0 {
                            assert(pairs[j] == rest[j - 1]);
                        }
                    }
                },
                None => {
                    assert forall|i: int| 0 <= i < pairs.len() implies (#[trigger] pairs[i]).0@ != key by {
                        if i > 0 {
                            assert(pairs[i] == rest[i - 1]);
                        }
                    }
                },
            }
        }
    }
}

impl CatDataContainer {
    /// Names of the units.
    pub closed spec fn spec_names(&self) -> Seq<CatName> {
        self.names@
    }

    /// Name replacements.
    pub closed spec fn spec_replacements(&self) -> Seq<(String, String)> {
        self.replacements@
    }

    /// Create a container from the unit names and the name replacements.
    pub fn new(names: Vec<CatName>, replacements: Vec<(String, String)>) -> (c: Self)
        ensures
            c.spec_names() == names@,
            c.spec_replacements() == replacements@,
    {
        Self { names, replacements }
    }

    /// Get the replacement of a cat name, if any.
    pub fn get_cat_replacement(&self, name: &str) -> (r: Option<&str>)
        ensures
            match r {
                Some(s) => lookup_pair(self.spec_replacements(), name@) == Some(s@),
                None => lookup_pair(self.spec_replacements(), name@) is None,
            },
    {
        let mut i: usize = 0;
        assert(self.replacements@.skip(0) =~= self.replacements@);
        while i < self.replacements.len()
            invariant
                0 <= i <= self.replacements.len(),
                lookup_pair(self.replacements@, name@) == lookup_pair(self.replacements@.skip(i as int), name@),
            decreases self.replacements.len() - i,
        {
            let ghost rest = self.replacements@.skip(i as int);
            assert(rest[0] == self.replacements@[i as int]);
            if str_eq(self.replacements[i].0.as_str(), name) {
                return Some(self.replacements[i].1.as_str());
            }
            assert(rest.drop_first() =~= self.replacements@.skip(i + 1));
            i = i + 1;
        }
        None
    }

    /// Replace the name if it has a replacement.
    pub fn replace_name(&self, name: &str) -> (r: String)
        ensures
            r@ == match lookup_pair(self.spec_replacements(), name@) {
                Some(n) => n,
                None => name@,
            },
    {
        match self.get_cat_replacement(name) {
            Some(n) => n.to_string(),
            None => name.to_string(),
        }
    }

    /// Get the cat with unit number `id`, if there is one.
    pub fn try_get_cat(&self, id: usize) -> (c: Option<&CatName>)
        ensures
            match c {
                Some(cat) => id < self.spec_names().len() && *cat == self.spec_names()[id as int],
                None => id >= self.spec_names().len(),
            },
    {
        if id < self.names.len() {
            Some(&self.names[id])
        } else {
            None
        }
    }

    /// Get the cat with unit number `id`.
    pub fn get_cat(&self, id: u32) -> (c: &CatName)
        requires
            id < self.spec_names().len(),
        ensures
            *c == self.spec_names()[id as int],
    {
        &self.names[id as usize]
    }

    /// Link text of cat `id`: `[[{page}|{first form name, replaced}]]`.
    pub open spec fn cat_link_text(&self, id: int) -> Seq<char> {
        "[["@ + self.spec_names()[id].page@ + seq!['|'] + match lookup_pair(
            self.spec_replacements(),
            self.spec_names()[id].normal@,
        ) {
            Some(n) => n,
            None => self.spec_names()[id].normal@,
        } + "]]"@
    }

    /// Link to the cat's page: `[[{page}|{first form name, replaced}]]`.
    pub fn get_cat_link(&self, id: u32) -> (s: String)
        requires
            id < self.spec_names().len(),
        ensures
            s@ == self.cat_link_text(id as int),
    {
        let cat = self.get_cat(id);
        let name = self.replace_name(cat.normal.as_str());
        let mut out: Vec<char> = Vec::new();
        push_str(&mut out, "[[");
        push_str(&mut out, cat.page.as_str());
        out.push('|');
        push_str(&mut out, name.as_str());
        push_str(&mut out, "]]");
        string_from(&out)
    }

    /// Get the number of the first cat with a form named `name`, ignoring
    /// case.
    pub fn get_id_from_name(&self, name: &str) -> (r: Option<u32>)
        ensures
            r == first_cat_named(self.spec_names(), name@),
    {
        let target = to_lowercase(name);
        let mut i: usize = 0;
        assert(self.names@.skip(0) =~= self.names@);
        while i < self.names.len()
            invariant
                0 <= i <= self.names.len(),
                target@ == lowercase(name@),
                first_cat_named(self.names@, name@) == first_cat_named(self.names@.skip(i as int), name@),
            decreases self.names.len() - i,
        {
            let ghost rest = self.names@.skip(i as int);
            let cat = &self.names[i];
            assert(rest[0] == *cat);
            if cat_has_form(cat, target.as_str(), name) {
                return Some(cat.id);
            }
            assert(rest.drop_first() =~= self.names@.skip(i + 1));
            i = i + 1;
        }
        None
    }
}

/// Does one of the cat's forms, in lowercase, equal `target`?
fn cat_has_form(cat: &CatName, target: &str, name: &str) -> (b: bool)
    requires
        target@ == lowercase(name@),
    ensures
        b == any_form_lower(cat_forms(*cat), name@),
{
    let forms = cat_forms_exec(cat);
    let mut k: usize = 0;
    while k < forms.len()
        invariant
            0 <= k <= forms.len(),
            target@ == lowercase(name@),
            forms@.len() == cat_forms(*cat).len(),
            forall|j: int| 0 <= j < forms@.len() ==> (#[trigger] forms@[j])@ == cat_forms(*cat)[j],
            forall|j: int| 0 <= j < k ==> lowercase(#[trigger] cat_forms(*cat)[j]) != lowercase(name@),
        decreases forms.len() - k,
    {
        let lower = to_lowercase(forms[k]);
        if str_eq(lower.as_str(), target) {
            assert(lowercase(cat_forms(*cat)[k as int]) == lowercase(name@));
            return true;
        }
        k = k + 1;
    }
    false
}

/// References to the names of the cat's forms.
fn cat_forms_exec(cat: &CatName) -> (v: Vec<&str>)
    ensures
        v@.len() == cat_forms(*cat).len(),
        forall|j: int| 0 <= j < v@.len() ==> (#[trigger] v@[j])@ == cat_forms(*cat)[j],
{
    let mut v: Vec<&str> = Vec::new();
    v.push(cat.normal.as_str());
    if let Some(n) = &cat.evolved {
        v.push(n.as_str());
    }
    if let Some(n) = &cat.true_form {
        v.push(n.as_str());
    }
    if let Some(n) = &cat.ultra {
        v.push(n.as_str());
    }
    v
}

} // verus!
