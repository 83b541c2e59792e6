//! The translator: the text of a key in the current language, with its
//! numbered arguments filled in.
use vstd::prelude::*;
use crate::i18n::{Language, TranslationKey, chinese_text, english_text, load_chinese_translation, load_english_translation};
use crate::text::{decimal_chars, push_char, push_decimal, str_chars, string_from_chars};

verus! {

/// The text stored for `key` in the table of `language`.
pub open spec fn table_text(language: Language, key: TranslationKey) -> Option<Seq<char>> {
    match language {
        Language::English => english_text(key),
        Language::Chinese => chinese_text(key),
    }
}

/// The text shown for `key` in `language`: the table's text, or the
/// key's identifier when the table has none.
pub open spec fn translation(language: Language, key: TranslationKey) -> Seq<char> {
    match table_text(language, key) {
        Some(t) => t,
        None => key.spec_as_str(),
    }
}

/// `s` with every match of `pat` replaced by `rep`, matches taken from
/// left to right without overlap (as `str::replace` does).
pub open spec fn replace_all(s: Seq<char>, pat: Seq<char>, rep: Seq<char>) -> Seq<char>
    decreases s.len(),
{
    if pat.len() == 0 || s.len() < pat.len() {
        s
    } else if s.take(pat.len() as int) == pat {
        rep + replace_all(s.skip(pat.len() as int), pat, rep)
    } else {
        seq![s[0]] + replace_all(s.drop_first(), pat, rep)
    }
}

/// The placeholder of argument `i`: `{i}`.
pub open spec fn placeholder(i: nat) -> Seq<char> {
    "{"@ + decimal_chars(i) + "}"@
}

/// The template with the placeholders `{i}`, `{i+1}`, ... replaced in
/// turn by the arguments from position `i` on.
pub open spec fn fill_from(t: Seq<char>, args: Seq<Seq<char>>, i: nat) -> Seq<char>
    decreases args.len() - i,
{
    if i >= args.len() {
        t
    } else {
        fill_from(replace_all(t, placeholder(i), args[i as int]), args, i + 1)
    }
}

/// The template with `{0}`, `{1}`, ... replaced in turn by the arguments.
pub open spec fn fill_args(t: Seq<char>, args: Seq<Seq<char>>) -> Seq<char> {
    fill_from(t, args, 0)
}

/// The texts of the arguments.
pub open spec fn arg_views(args: Seq<&str>) -> Seq<Seq<char>> {
    args.map_values(|a: &str| a@)
}

fn starts_at(s: &Vec<char>, pat: &Vec<char>, i: usize) -> (r: bool)
    requires
        i + pat@.len() <= s@.len(),
    ensures
        r == (s@.skip(i as int).take(pat@.len() as int) == pat@),
{
    let mut k: usize = 0;
    while k < pat.len()
        invariant
            i + pat@.len() <= s@.len(),
            s@.len() == s.len(),
            k <= pat@.len(),
            forall|j: int| 0 <= j < k ==> s@[i + j] == pat@[j],
        decreases pat@.len() - k,
    {
        if s[i + k] != pat[k] {
            assert(s@.skip(i as int).take(pat@.len() as int)[k as int] != pat@[k as int]);
            return false;
        }
        k = k + 1;
    }
    assert(s@.skip(i as int).take(pat@.len() as int) =~= pat@);
    true
}

/// Replaces every match of `pat` (not empty) in `s` by `rep`.
pub fn replace_text(s: &str, pat: &str, rep: &str) -> (r: String)
    requires
        pat@.len() > 0,
    ensures
        r@ == replace_all(s@, pat@, rep@),
{
    let sc = str_chars(s);
    let pc = str_chars(pat);
    let rc = str_chars(rep);
    let mut out: Vec<char> = Vec::new();
    let mut i: usize = 0;
    assert(sc@.skip(0) =~= sc@);
    while i < sc.len()
        invariant
            sc@ == s@,
            pc@ == pat@,
            rc@ == rep@,
            pat@.len() > 0,
            i <= sc@.len(),
            out@ + replace_all(sc@.skip(i as int), pc@, rc@) == replace_all(s@, pat@, rep@),
        decreases sc@.len() - i,
    {
        let ghost rest = sc@.skip(i as int);
        if pc.len() <= sc.len() - i && starts_at(&sc, &pc, i) {
            let mut k: usize = 0;
            let ghost before = out@;
            while k < rc.len()
                invariant
                    k <= rc@.len(),
                    out@ == before + rc@.take(k as int),
                decreases rc@.len() - k,
            {
                out.push(rc[k]);
                assert(rc@.take(k + 1) =~= rc@.take(k as int).push(rc@[k as int]));
                k = k + 1;
            }
            assert(rc@.take(rc@.len() as int) =~= rc@);
            assert(rest.skip(pc@.len() as int) =~= sc@.skip(i + pc@.len()));
            assert(before + (rc@ + replace_all(rest.skip(pc@.len() as int), pc@, rc@)) =~= out@ + replace_all(
                sc@.skip(i + pc@.len()),
                pc@,
                rc@,
            ));
            i = i + pc.len();
        } else {
            let ghost before = out@;
            out.push(sc[i]);
            assert(rest.drop_first() =~= sc@.skip(i + 1));
            assert(rest[0] == sc@[i as int]);
            assert(before + (seq![rest[0]] + replace_all(rest.drop_first(), pc@, rc@)) =~= out@ + replace_all(
                sc@.skip(i + 1),
                pc@,
                rc@,
            ));
            i = i + 1;
        }
    }
    assert(sc@.skip(i as int) =~= Seq::<char>::empty());
    assert(out@ =~= out@ + replace_all(sc@.skip(i as int), pc@, rc@));
    string_from_chars(out.as_slice())
}

fn placeholder_text(i: usize) -> (r: String)
    ensures
        r@ == placeholder(i as nat),
{
    proof { reveal_strlit("{"); reveal_strlit("}"); }
    let mut s = String::new();
    push_char(&mut s, '{');
    push_decimal(&mut s, i as u128);
    push_char(&mut s, '}');
    assert(s@ =~= placeholder(i as nat));
    s
}

/// Looks texts up in the table of the current language.
#[derive(Debug)]
pub struct Translator {
    language: Language,
}

impl Translator {
    /// The current language.
    pub closed spec fn spec_language(&self) -> Language {
        self.language
    }

    /// A translator for `language`.
    pub fn new(language: Language) -> (r: Self)
        ensures
            r.spec_language() == language,
    {
        Translator { language }
    }

    /// The text of `key` in the current language, or the key's identifier
    /// when the table holds none.
    pub fn t(&self, key: TranslationKey) -> (r: &'static str)
        ensures
            r@ == translation(self.spec_language(), key),
    {
        let found = match self.language {
            Language::English => load_english_translation(key),
            Language::Chinese => load_chinese_translation(key),
        };
        match found {
            Some(s) => s,
            None => key.as_str(),
        }
    }

    /// The text of `key` with `{0}`, `{1}`, ... replaced in turn by the
    /// arguments.
    pub fn t_with_args(&self, key: TranslationKey, args: &[&str]) -> (r: String)
        ensures
            r@ == fill_args(translation(self.spec_language(), key), arg_views(args@)),
    {
        let mut acc = String::from_str(self.t(key));
        let mut i: usize = 0;
        while i < args.len()
            invariant
                i <= args@.len(),
                fill_args(translation(self.spec_language(), key), arg_views(args@)) == fill_from(
                    acc@,
                    arg_views(args@),
                    i as nat,
                ),
            decreases args@.len() - i,
        {
            let p = placeholder_text(i);
            proof { reveal_strlit("{"); }
            assert(p@.len() > 0);
            assert(arg_views(args@)[i as int] == args@[i as int]@);
            acc = replace_text(acc.as_str(), p.as_str(), args[i]);
            i = i + 1;
        }
        acc
    }

    /// The current language.
    pub fn language(&self) -> (r: Language)
        ensures
            r == self.spec_language(),
    {
        self.language
    }

    /// Switches to `language`.
    pub fn set_language(&mut self, language: Language)
        ensures
            final(self).spec_language() == language,
    {
        self.language = language;
    }
}


/// The code of a language names that language again.
pub proof fn lemma_language_code_roundtrip(l: Language)
    ensures
        Language::spec_from_code(l.spec_code()) == l,
{
    reveal_strlit("en");
    reveal_strlit("zh");
    reveal_strlit("zh-CN");
    reveal_strlit("zh_CN");
    if l == Language::English {
        assert("en"@[0] == 'e' && "zh"@[0] == 'z');
        assert("en"@ != "zh"@);
        assert("en"@.len() != "zh-CN"@.len());
        assert("en"@.len() != "zh_CN"@.len());
    }
}

/// With no arguments, a text with arguments is the text itself.
pub proof fn lemma_no_args(t: Seq<char>)
    ensures
        fill_args(t, Seq::empty()) == t,
{
}

} // verus!
