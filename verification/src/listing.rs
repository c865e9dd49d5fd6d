//! The model list of `tama models`: the chat models of each provider in the
//! price list, sorted, with the provider's prefix taken off for display.
use vstd::prelude::*;
use vstd::relations::sorted_by;
use vstd::string::StringExecFns;

use crate::text::{chars_of, starts_with, str_eq};
use crate::tools::views;

verus! {

/// One entry of the price list: the model's name, and its provider and
/// mode when they are given as strings.
#[derive(Debug, Clone)]
pub struct ModelListing {
    pub name: String,
    pub provider: Option<String>,
    pub mode: Option<String>,
}

/// The providers `tama models` lists: (heading, provider id in the price list).
pub open spec fn spec_listed_providers() -> Seq<(Seq<char>, Seq<char>)> {
    seq![("Anthropic"@, "anthropic"@), ("OpenAI"@, "openai"@), ("Gemini"@, "gemini"@)]
}

/// The providers `tama models` lists, in the order it lists them.
pub fn listed_providers() -> (r: Vec<(&'static str, &'static str)>)
    ensures
        r@.map_values(|p: (&str, &str)| (p.0@, p.1@)) == spec_listed_providers(),
{
    let r = vec![("Anthropic", "anthropic"), ("OpenAI", "openai"), ("Gemini", "gemini")];
    assert(r@.map_values(|p: (&str, &str)| (p.0@, p.1@)) =~= spec_listed_providers());
    r
}

/// Texts in lexicographic order, character by character.
pub open spec fn text_le(a: Seq<char>, b: Seq<char>) -> bool
    decreases a.len(),
{
    if a.len() == 0 {
        true
    } else if b.len() == 0 {
        false
    } else if a[0] != b[0] {
        (a[0] as int) < (b[0] as int)
    } else {
        text_le(a.drop_first(), b.drop_first())
    }
}

proof fn lemma_text_le_total(a: Seq<char>, b: Seq<char>)
    ensures
        text_le(a, b) || text_le(b, a),
    decreases a.len(),
{
    if a.len() > 0 && b.len() > 0 && a[0] == b[0] {
        lemma_text_le_total(a.drop_first(), b.drop_first());
    }
}

proof fn lemma_text_le_trans(a: Seq<char>, b: Seq<char>, c: Seq<char>)
    requires
        text_le(a, b),
        text_le(b, c),
    ensures
        text_le(a, c),
    decreases a.len(),
{
    if a.len() > 0 && b.len() > 0 && c.len() > 0 && a[0] == b[0] && b[0] == c[0] {
        lemma_text_le_trans(a.drop_first(), b.drop_first(), c.drop_first());
    }
}

/// Whether `a` comes no later than `b` in lexicographic order.
fn text_le_exec(a: &str, b: &str) -> (r: bool)
    ensures
        r == text_le(a@, b@),
{
    let x = chars_of(a);
    let y = chars_of(b);
    let mut i: usize = 0;
    assert(x@.skip(0) =~= x@);
    assert(y@.skip(0) =~= y@);
    while i < x.len() && i < y.len() && x[i] == y[i]
        invariant
            i <= x.len(),
            i <= y.len(),
            text_le(a@, b@) == text_le(x@.skip(i as int), y@.skip(i as int)),
            x@ == a@,
            y@ == b@,
        decreases x.len() - i,
    {
        assert(x@.skip(i as int).drop_first() =~= x@.skip(i + 1));
        assert(y@.skip(i as int).drop_first() =~= y@.skip(i + 1));
        i += 1;
    }
    if i == x.len() {
        return true;
    }
    if i == y.len() {
        return false;
    }
    assert(x@.skip(i as int)[0] == x@[i as int]);
    assert(y@.skip(i as int)[0] == y@[i as int]);
    x[i] < y[i]
}

/// Whether a price-list entry is a chat model of the provider.
pub open spec fn is_chat_model_of(l: ModelListing, provider: Seq<char>) -> bool {
    &&& l.name@ != "sample_spec"@
    &&& l.provider matches Some(p) && p@ == provider
    &&& l.mode matches Some(m) && m@ == "chat"@
}

/// The names of the chat models of a provider, in the price list's order.
pub open spec fn chat_models_of(listings: Seq<ModelListing>, provider: Seq<char>) -> Seq<Seq<char>>
    decreases listings.len(),
{
    if listings.len() == 0 {
        Seq::empty()
    } else {
        let rest = chat_models_of(listings.drop_last(), provider);
        if is_chat_model_of(listings.last(), provider) {
            rest.push(listings.last().name@)
        } else {
            rest
        }
    }
}

/// Inserts `x` into the sorted list `v` after every entry not later than it.
fn insert_sorted(v: &mut Vec<String>, x: String)
    requires
        sorted_by(views(old(v)@), |a: Seq<char>, b: Seq<char>| text_le(a, b)),
    ensures
        sorted_by(views(final(v)@), |a: Seq<char>, b: Seq<char>| text_le(a, b)),
        views(final(v)@).to_multiset() == views(old(v)@).to_multiset().insert(x@),
{
    let ghost le = |a: Seq<char>, b: Seq<char>| text_le(a, b);
    let ghost s = views(v@);
    let mut k: usize = 0;
    while k < v.len() && text_le_exec(v[k].as_str(), x.as_str())
        invariant
            k <= v.len(),
            s == views(v@),
            forall|i: int| 0 <= i < k ==> text_le(#[trigger] s[i], x@),
        decreases v.len() - k,
    {
        k += 1;
    }
    proof {
        if k < v.len() {
            lemma_text_le_total(s[k as int], x@);
        }
    }
    let ghost xv = x@;
    v.insert(k, x);
    let ghost t = views(v@);
    assert(t =~= s.insert(k as int, xv));
    assert forall|i: int, j: int| 0 <= i < j < t.len() implies #[trigger] le(t[i], t[j]) by {
        if j < k {
            assert(t[i] == s[i] && t[j] == s[j]);
            assert(le(s[i], s[j]));
        } else if j == k {
            assert(t[j] == xv && t[i] == s[i]);
        } else if i < k {
            assert(t[i] == s[i] && t[j] == s[j - 1]);
            lemma_text_le_trans(s[i], xv, s[k as int]);
            if j - 1 > k {
                assert(le(s[k as int], s[j - 1]));
                lemma_text_le_trans(s[i], s[k as int], s[j - 1]);
            }
        } else if i == k {
            assert(t[i] == xv && t[j] == s[j - 1]);
            if j - 1 > k {
                assert(le(s[k as int], s[j - 1]));
                lemma_text_le_trans(xv, s[k as int], s[j - 1]);
            }
        } else {
            assert(t[i] == s[i - 1] && t[j] == s[j - 1]);
            assert(le(s[i - 1], s[j - 1]));
        }
    }
    proof {
        assert(s =~= s.take(k as int) + s.skip(k as int));
        assert(t =~= s.take(k as int).push(xv) + s.skip(k as int));
        vstd::seq_lib::lemma_multiset_commutative(s.take(k as int), s.skip(k as int));
        vstd::seq_lib::lemma_multiset_commutative(s.take(k as int).push(xv), s.skip(k as int));
        vstd::seq_lib::to_multiset_build(s.take(k as int), xv);
        assert(t.to_multiset() =~= s.to_multiset().insert(xv));
    }
}

/// The chat models of a provider in the price list, sorted by name.
pub fn provider_models(listings: &Vec<ModelListing>, provider_id: &str) -> (r: Vec<String>)
    ensures
        sorted_by(views(r@), |a: Seq<char>, b: Seq<char>| text_le(a, b)),
        views(r@).to_multiset() == chat_models_of(listings@, provider_id@).to_multiset(),
{
    let mut r: Vec<String> = Vec::new();
    let mut i: usize = 0;
    assert(views(r@) =~= Seq::<Seq<char>>::empty());
    assert(chat_models_of(listings@.take(0), provider_id@) =~= Seq::<Seq<char>>::empty());
    while i < listings.len()
        invariant
            i <= listings.len(),
            sorted_by(views(r@), |a: Seq<char>, b: Seq<char>| text_le(a, b)),
            views(r@).to_multiset() == chat_models_of(listings@.take(i as int), provider_id@).to_multiset(),
        decreases listings.len() - i,
    {
        let l = &listings[i];
        let ghost t = listings@.take(i + 1);
        assert(t.drop_last() =~= listings@.take(i as int));
        assert(t.last() == listings@[i as int]);
        let chat = !str_eq(l.name.as_str(), "sample_spec") && match &l.provider {
            Some(p) => str_eq(p.as_str(), provider_id),
            None => false,
        } && match &l.mode {
            Some(m) => str_eq(m.as_str(), "chat"),
            None => false,
        };
        assert(chat == is_chat_model_of(listings@[i as int], provider_id@));
        if chat {
            let ghost before = chat_models_of(listings@.take(i as int), provider_id@);
            insert_sorted(&mut r, l.name.clone());
            proof {
                vstd::seq_lib::to_multiset_build(before, l.name@);
            }
        }
        i += 1;
    }
    assert(listings@.take(listings.len() as int) =~= listings@);
    r
}

/// The name a model is shown under: without the `provider/` prefix when it
/// has one.
pub open spec fn spec_display_name(name: Seq<char>, provider: Seq<char>) -> Seq<char> {
    if starts_with(name, provider + "/"@) {
        name.skip(provider.len() as int + 1)
    } else {
        name
    }
}

/// The name a model is shown under.
pub fn display_name(name: &str, provider_id: &str) -> (r: String)
    ensures
        r@ == spec_display_name(name@, provider_id@),
{
    let mut prefix = provider_id.to_owned();
    prefix.append("/");
    if crate::text::starts_with_str(name, prefix.as_str()) {
        let v = chars_of(name);
        proof {
            reveal_strlit("/");
        }
        assert(prefix@.len() == provider_id@.len() + 1);
        assert(starts_with(name@, prefix@));
        assert(provider_id@.len() + 1 <= v@.len());
        let pv = chars_of(provider_id);
        assert(pv.len() + 1 <= v.len());
        let k = pv.len() + 1;
        crate::text::string_from_range(&v, k, v.len())
    } else {
        name.to_owned()
    }
}

} // verus!
