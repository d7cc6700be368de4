//! BCP-47 language tags: a language subtag with an optional script and
//! an optional region, validated by `icu_locale_core`.
//!
//! A `Language` holds the three subtags in their canonical text form
//! (language in lower case, script in title case, region in upper case
//! or as three digits). Variants and extensions that a parsed tag may
//! carry are validated and then dropped.

use icu_locale_core::subtags::{Language as IcuLanguage, Region as IcuRegion, Script as IcuScript};
use vstd::prelude::*;
use vstd::string::{StrSliceExecFns, StringExecFns};

verus! {

/// `c` is an ASCII letter.
pub open spec fn is_ascii_alpha(c: char) -> bool {
    ('a' <= c && c <= 'z') || ('A' <= c && c <= 'Z')
}

/// `c` is an ASCII lower-case letter.
pub open spec fn is_ascii_lower(c: char) -> bool {
    'a' <= c && c <= 'z'
}

/// `c` is an ASCII upper-case letter.
pub open spec fn is_ascii_upper(c: char) -> bool {
    'A' <= c && c <= 'Z'
}

/// `c` is an ASCII digit.
pub open spec fn is_ascii_digit(c: char) -> bool {
    '0' <= c && c <= '9'
}

/// `c` in ASCII lower case (other characters unchanged).
pub open spec fn to_lower(c: char) -> char {
    if is_ascii_upper(c) {
        ((c as int) + 32) as char
    } else {
        c
    }
}

/// `c` in ASCII upper case (other characters unchanged).
pub open spec fn to_upper(c: char) -> char {
    if is_ascii_lower(c) {
        ((c as int) - 32) as char
    } else {
        c
    }
}

/// Every character of `s` is an ASCII letter.
pub open spec fn all_alpha(s: Seq<char>) -> bool {
    forall|i: int| 0 <= i < s.len() ==> #[trigger] is_ascii_alpha(s[i])
}

/// Every character of `s` is an ASCII digit.
pub open spec fn all_digits(s: Seq<char>) -> bool {
    forall|i: int| 0 <= i < s.len() ==> #[trigger] is_ascii_digit(s[i])
}

/// `s` in ASCII lower case.
pub open spec fn lowercase(s: Seq<char>) -> Seq<char> {
    Seq::new(s.len(), |i: int| to_lower(s[i]))
}

/// `s` in ASCII upper case.
pub open spec fn uppercase(s: Seq<char>) -> Seq<char> {
    Seq::new(s.len(), |i: int| to_upper(s[i]))
}

/// `s` in ASCII title case: the first character upper case, the rest
/// lower case.
pub open spec fn titlecase(s: Seq<char>) -> Seq<char> {
    Seq::new(s.len(), |i: int| if i == 0 { to_upper(s[i]) } else { to_lower(s[i]) })
}

/// `s` is accepted as a language subtag: two or three ASCII letters.
pub open spec fn language_subtag_ok(s: Seq<char>) -> bool {
    2 <= s.len() <= 3 && all_alpha(s)
}

/// `s` is accepted as a script subtag: four ASCII letters.
pub open spec fn script_subtag_ok(s: Seq<char>) -> bool {
    s.len() == 4 && all_alpha(s)
}

/// `s` is accepted as a region subtag: two ASCII letters or three ASCII
/// digits.
pub open spec fn region_subtag_ok(s: Seq<char>) -> bool {
    (s.len() == 2 && all_alpha(s)) || (s.len() == 3 && all_digits(s))
}

/// The canonical form of an accepted region subtag.
pub open spec fn region_canonical(s: Seq<char>) -> Seq<char> {
    if s.len() == 2 {
        uppercase(s)
    } else {
        s
    }
}

/// `s` is a language subtag in canonical form.
pub open spec fn is_language_code(s: Seq<char>) -> bool {
    2 <= s.len() <= 3 && forall|i: int| 0 <= i < s.len() ==> #[trigger] is_ascii_lower(s[i])
}

/// `s` is a script subtag in canonical form.
pub open spec fn is_script_code(s: Seq<char>) -> bool {
    &&& s.len() == 4
    &&& is_ascii_upper(s[0])
    &&& forall|i: int| 1 <= i < 4 ==> #[trigger] is_ascii_lower(s[i])
}

/// `s` is a region subtag in canonical form.
pub open spec fn is_region_code(s: Seq<char>) -> bool {
    ||| s.len() == 2 && forall|i: int| 0 <= i < 2 ==> #[trigger] is_ascii_upper(s[i])
    ||| s.len() == 3 && all_digits(s)
}

/// The abstract value of a `Language`: its language subtag, and its
/// script and region subtags where present.
pub type LanguageTag = (Seq<char>, Option<Seq<char>>, Option<Seq<char>>);

/// `v` is the value of some `Language`: each subtag in canonical form.
pub open spec fn is_language_tag(v: LanguageTag) -> bool {
    &&& is_language_code(v.0)
    &&& v.1 matches Some(s) ==> is_script_code(s)
    &&& v.2 matches Some(g) ==> is_region_code(g)
}

/// The language subtag of the undetermined language.
pub open spec fn und() -> Seq<char> {
    seq!['u', 'n', 'd']
}

/// `"-"` followed by the subtag, or nothing.
pub open spec fn dash_subtag(o: Option<Seq<char>>) -> Seq<char> {
    match o {
        Some(s) => seq!['-'] + s,
        None => Seq::empty(),
    }
}

/// The BCP-47 text of a tag: its subtags joined by `-`.
pub open spec fn bcp47_text(v: LanguageTag) -> Seq<char> {
    v.0 + dash_subtag(v.1) + dash_subtag(v.2)
}

/// The text of an optional string slice.
pub open spec fn opt_str_view(o: Option<&str>) -> Option<Seq<char>> {
    match o {
        Some(s) => Some(s@),
        None => None,
    }
}

/// The text of an optional string.
pub open spec fn opt_string_view(o: Option<String>) -> Option<Seq<char>> {
    match o {
        Some(s) => Some(s@),
        None => None,
    }
}

/// The value of the three subtags that a tag parser hands back.
pub open spec fn parts_view(p: (String, Option<String>, Option<String>)) -> LanguageTag {
    (p.0@, opt_string_view(p.1), opt_string_view(p.2))
}

/// An optional script argument is absent or accepted.
pub open spec fn script_arg_ok(o: Option<&str>) -> bool {
    match o {
        Some(s) => script_subtag_ok(s@),
        None => true,
    }
}

/// An optional region argument is absent or accepted.
pub open spec fn region_arg_ok(o: Option<&str>) -> bool {
    match o {
        Some(s) => region_subtag_ok(s@),
        None => true,
    }
}

/// The canonical form of an optional script argument.
pub open spec fn script_arg_canonical(o: Option<&str>) -> Option<Seq<char>> {
    match o {
        Some(s) => Some(titlecase(s@)),
        None => None,
    }
}

/// The canonical form of an optional region argument.
pub open spec fn region_arg_canonical(o: Option<&str>) -> Option<Seq<char>> {
    match o {
        Some(s) => Some(region_canonical(s@)),
        None => None,
    }
}

/// `icu_locale_core::subtags::Language::try_from_str`. Its source accepts
/// exactly two or three ASCII letters and normalizes them to lower case;
/// the result's text is that of the parsed subtag.
#[verifier::external_body]
fn parse_language_subtag(s: &str) -> (r: Option<String>)
    ensures
        match r {
            Some(t) => language_subtag_ok(s@) && t@ == lowercase(s@),
            None => !language_subtag_ok(s@),
        },
{
    match IcuLanguage::try_from_str(s) {
        Ok(l) => Some(l.as_str().to_owned()),
        Err(_) => None,
    }
}

/// `icu_locale_core::subtags::Script::try_from_str`. Its source accepts
/// exactly four ASCII letters and normalizes them to title case.
#[verifier::external_body]
fn parse_script_subtag(s: &str) -> (r: Option<String>)
    ensures
        match r {
            Some(t) => script_subtag_ok(s@) && t@ == titlecase(s@),
            None => !script_subtag_ok(s@),
        },
{
    match IcuScript::try_from_str(s) {
        Ok(l) => Some(l.as_str().to_owned()),
        Err(_) => None,
    }
}

/// `icu_locale_core::subtags::Region::try_from_str`. Its source accepts
/// two ASCII letters, normalized to upper case, or three ASCII digits,
/// kept as they are.
#[verifier::external_body]
fn parse_region_subtag(s: &str) -> (r: Option<String>)
    ensures
        match r {
            Some(t) => region_subtag_ok(s@) && t@ == region_canonical(s@),
            None => !region_subtag_ok(s@),
        },
{
    match IcuRegion::try_from_str(s) {
        Ok(l) => Some(l.as_str().to_owned()),
        Err(_) => None,
    }
}

/// What `icu_locale_core::LanguageIdentifier::try_from_str` makes of a
/// text: its language, script and region subtags, or `None` where it
/// rejects the text.
pub uninterp spec fn bcp47_langid(s: Seq<char>) -> Option<LanguageTag>;

/// Where `s` is the text of a tag whose subtags are canonical, `r` holds
/// exactly those subtags.
pub open spec fn reads_back(
    s: Seq<char>,
    r: Option<(String, Option<String>, Option<String>)>,
) -> bool {
    forall|v: LanguageTag|
        is_language_tag(v) && s == bcp47_text(v) ==> (r matches Some(p) && parts_view(p) == v)
}

/// `icu_locale_core::LanguageIdentifier::try_from_str`, keeping the
/// language, script and region subtags of the identifier in their text
/// form. The result is named by `bcp47_langid`; beside that, this claims
/// two facts of the parser's source: the subtags it keeps come from the
/// subtag parsers and so are canonical, and the text of a tag whose
/// subtags are canonical parses back to those subtags. What it accepts
/// beyond that (variants, the exact grammar) is left to the name.
#[verifier::external_body]
fn parse_language_identifier(s: &str) -> (r: Option<
    (String, Option<String>, Option<String>),
>)
    ensures
        r is None <==> bcp47_langid(s@) is None,
        r matches Some(p) ==> bcp47_langid(s@) == Some(parts_view(p)),
        r matches Some(p) ==> is_language_tag(parts_view(p)),
        reads_back(s@, r),
{
    match icu_locale_core::LanguageIdentifier::try_from_str(s) {
        Ok(id) => Some((
            id.language.as_str().to_owned(),
            id.script.map(|x| x.as_str().to_owned()),
            id.region.map(|x| x.as_str().to_owned()),
        )),
        Err(_) => None,
    }
}

/// Lower-casing an accepted language subtag gives a canonical one.
proof fn lemma_lowercase_code(s: Seq<char>)
    requires
        language_subtag_ok(s),
    ensures
        is_language_code(lowercase(s)),
{
    assert forall|i: int| 0 <= i < lowercase(s).len() implies #[trigger] is_ascii_lower(
        lowercase(s)[i],
    ) by {
        assert(is_ascii_alpha(s[i]));
    }
}

/// Title-casing an accepted script subtag gives a canonical one.
proof fn lemma_titlecase_code(s: Seq<char>)
    requires
        script_subtag_ok(s),
    ensures
        is_script_code(titlecase(s)),
{
    assert(is_ascii_alpha(s[0]));
    assert forall|i: int| 1 <= i < 4 implies #[trigger] is_ascii_lower(titlecase(s)[i]) by {
        assert(is_ascii_alpha(s[i]));
    }
}

/// The canonical form of an accepted region subtag is canonical.
proof fn lemma_region_code(s: Seq<char>)
    requires
        region_subtag_ok(s),
    ensures
        is_region_code(region_canonical(s)),
{
    if s.len() == 2 {
        assert forall|i: int| 0 <= i < 2 implies #[trigger] is_ascii_upper(uppercase(s)[i]) by {
            assert(is_ascii_alpha(s[i]));
        }
    }
}

/// Subtags already in canonical form are accepted and left as they are.
proof fn lemma_canonical_fixed(l: Seq<char>, sc: Option<Seq<char>>, rg: Option<Seq<char>>)
    ensures
        is_language_tag((l, sc, rg)) ==> {
            &&& language_subtag_ok(l)
            &&& lowercase(l) == l
            &&& sc matches Some(s) ==> script_subtag_ok(s) && titlecase(s) == s
            &&& rg matches Some(g) ==> region_subtag_ok(g) && region_canonical(g) == g
        },
{
    if is_language_tag((l, sc, rg)) {
        assert forall|i: int| 0 <= i < l.len() implies #[trigger] is_ascii_alpha(l[i]) by {
            assert(is_ascii_lower(l[i]));
        }
        assert forall|i: int| 0 <= i < l.len() implies #[trigger] lowercase(l)[i] == l[i] by {
            assert(is_ascii_lower(l[i]));
        }
        assert(lowercase(l) =~= l);
        if let Some(s) = sc {
            assert forall|i: int| 0 <= i < s.len() implies #[trigger] is_ascii_alpha(s[i]) by {
                if i > 0 {
                    assert(is_ascii_lower(s[i]));
                }
            }
            assert forall|i: int| 0 <= i < s.len() implies #[trigger] titlecase(s)[i] == s[i] by {
                if i > 0 {
                    assert(is_ascii_lower(s[i]));
                }
            }
            assert(titlecase(s) =~= s);
        }
        if let Some(g) = rg {
            if g.len() == 2 {
                assert forall|i: int| 0 <= i < g.len() implies #[trigger] is_ascii_alpha(g[i]) by {
                    assert(is_ascii_upper(g[i]));
                }
                assert forall|i: int| 0 <= i < g.len() implies #[trigger] uppercase(g)[i]
                    == g[i] by {
                    assert(is_ascii_upper(g[i]));
                }
                assert(uppercase(g) =~= g);
            }
        }
    }
}

/// The undetermined language subtag is canonical.
proof fn lemma_und_code()
    ensures
        is_language_code(und()),
{
    assert(is_ascii_lower(und()[0]));
    assert(is_ascii_lower(und()[1]));
    assert(is_ascii_lower(und()[2]));
}

/// A validated BCP-47 language tag: a language subtag plus an optional
/// script and an optional region subtag, each in canonical form.
///
/// The default is the undetermined language `"und"`.
#[derive(Debug, PartialEq, Eq, Hash)]
pub struct Language {
    language: String,
    script: Option<String>,
    region: Option<String>,
}

impl View for Language {
    type V = LanguageTag;

    closed spec fn view(&self) -> LanguageTag {
        (self.language@, opt_string_view(self.script), opt_string_view(self.region))
    }
}

/// A copy of an optional subtag.
fn clone_subtag(o: &Option<String>) -> (r: Option<String>)
    ensures
        opt_string_view(r) == opt_string_view(*o),
{
    match o {
        Some(s) => Some(s.clone()),
        None => None,
    }
}

impl Clone for Language {
    fn clone(&self) -> (r: Self)
        ensures
            r@ == self@,
    {
        proof {
            use_type_invariant(self);
        }
        Language {
            language: self.language.clone(),
            script: clone_subtag(&self.script),
            region: clone_subtag(&self.region),
        }
    }
}

impl Language {
    #[verifier::type_invariant]
    closed spec fn wf(self) -> bool {
        is_language_tag(self@)
    }

    /// The undetermined language (`"und"`), with no script or region.
    pub fn new() -> (r: Self)
        ensures
            r@ == (und(), None::<Seq<char>>, None::<Seq<char>>),
            is_language_tag(r@),
    {
        let language = "und".to_owned();
        proof {
            reveal_strlit("und");
            lemma_und_code();
        }
        Language { language, script: None, region: None }
    }

    /// Builds a `Language` from its subtags, validating each with
    /// `icu_locale_core`: `lang` is required (`"und"` for undetermined),
    /// `script` and `region` are optional. The first invalid subtag, in
    /// that order, is reported with its text.
    pub fn try_new(lang: &str, script: Option<&str>, region: Option<&str>) -> (r: Result<
        Self,
        LanguageError,
    >)
        ensures
            match r {
                Ok(l) => {
                    &&& language_subtag_ok(lang@)
                    &&& script_arg_ok(script)
                    &&& region_arg_ok(region)
                    &&& l@ == (
                        lowercase(lang@),
                        script_arg_canonical(script),
                        region_arg_canonical(region),
                    )
                    &&& is_language_tag(l@)
                },
                Err(LanguageError::InvalidLanguage(t)) => {
                    !language_subtag_ok(lang@) && t@ == lang@
                },
                Err(LanguageError::InvalidScript(t)) => {
                    &&& language_subtag_ok(lang@)
                    &&& script matches Some(s) && !script_subtag_ok(s@) && t@ == s@
                },
                Err(LanguageError::InvalidRegion(t)) => {
                    &&& language_subtag_ok(lang@)
                    &&& script_arg_ok(script)
                    &&& region matches Some(g) && !region_subtag_ok(g@) && t@ == g@
                },
                Err(LanguageError::MalformedBcp47(_)) => false,
            },
            is_language_tag((lang@, opt_str_view(script), opt_str_view(region))) ==> (r matches Ok(
                l,
            ) && l@ == (lang@, opt_str_view(script), opt_str_view(region))),
    {
        proof {
            lemma_canonical_fixed(lang@, opt_str_view(script), opt_str_view(region));
        }
        let language = match parse_language_subtag(lang) {
            Some(t) => t,
            None => {
                return Err(LanguageError::InvalidLanguage(lang.to_owned()));
            },
        };
        let script_tag = match script {
            Some(s) => match parse_script_subtag(s) {
                Some(t) => Some(t),
                None => {
                    return Err(LanguageError::InvalidScript(s.to_owned()));
                },
            },
            None => None,
        };
        let region_tag = match region {
            Some(g) => match parse_region_subtag(g) {
                Some(t) => Some(t),
                None => {
                    return Err(LanguageError::InvalidRegion(g.to_owned()));
                },
            },
            None => None,
        };
        proof {
            lemma_lowercase_code(lang@);
            if script is Some {
                lemma_titlecase_code(script->0@);
            }
            if region is Some {
                lemma_region_code(region->0@);
            }
        }
        Ok(Language { language, script: script_tag, region: region_tag })
    }
}

impl Language {
    /// Parses a BCP-47 language tag such as `"en"`, `"en-US"` or
    /// `"zh-Hant-TW"` with `icu_locale_core`, keeping its language,
    /// script and region subtags; variants and extensions are validated
    /// and dropped. A rejected text is reported whole.
    pub fn from_bcp47(s: &str) -> (r: Result<Self, LanguageError>)
        ensures
            match r {
                Ok(l) => bcp47_langid(s@) == Some(l@) && is_language_tag(l@),
                Err(e) => {
                    &&& bcp47_langid(s@) is None
                    &&& e matches LanguageError::MalformedBcp47(t) && t@ == s@
                },
            },
            forall|v: LanguageTag|
                is_language_tag(v) && s@ == bcp47_text(v) ==> (r matches Ok(l) && l@ == v),
    {
        let parsed = parse_language_identifier(s);
        Self::from_parsed_bcp47(s, parsed)
    }

    /// Builds the result of parsing `s` from what the identifier parser
    /// made of it: its canonical subtags, or `None` where it rejected `s`.
    pub fn from_parsed_bcp47(
        s: &str,
        parsed: Option<(String, Option<String>, Option<String>)>,
    ) -> (r: Result<Self, LanguageError>)
        requires
            parsed matches Some(p) ==> is_language_tag(parts_view(p)),
        ensures
            match parsed {
                Some(p) => r matches Ok(l) && l@ == parts_view(p),
                None => r matches Err(LanguageError::MalformedBcp47(t)) && t@ == s@,
            },
    {
        match parsed {
            Some((language, script, region)) => Ok(Language { language, script, region }),
            None => Err(LanguageError::MalformedBcp47(s.to_owned())),
        }
    }

    /// The language subtag in canonical form (`"en"`, `"zh"`, or `"und"`
    /// for undetermined).
    pub fn language(&self) -> (r: &str)
        ensures
            r@ == self@.0,
            is_language_code(r@),
    {
        proof {
            use_type_invariant(self);
        }
        self.language.as_str()
    }

    /// The script subtag in canonical form (`"Hant"`, `"Latn"`), if any.
    pub fn script(&self) -> (r: Option<&str>)
        ensures
            opt_str_view(r) == self@.1,
    {
        match &self.script {
            Some(s) => Some(s.as_str()),
            None => None,
        }
    }

    /// The region subtag in canonical form (`"US"`, `"TW"`, `"419"`), if
    /// any.
    pub fn region(&self) -> (r: Option<&str>)
        ensures
            opt_str_view(r) == self@.2,
    {
        match &self.region {
            Some(g) => Some(g.as_str()),
            None => None,
        }
    }

    /// The canonical BCP-47 text of the tag: its subtags joined by `-`
    /// (`"en"`, `"en-US"`, `"zh-Hant-TW"`, `"und"`).
    pub fn to_bcp47(&self) -> (r: String)
        ensures
            r@ == bcp47_text(self@),
            is_language_tag(self@),
    {
        proof {
            use_type_invariant(self);
        }
        let mut out = self.language.clone();
        proof {
            reveal_strlit("-");
        }
        match &self.script {
            Some(s) => {
                out.append("-");
                out.append(s.as_str());
            },
            None => {},
        }
        match &self.region {
            Some(g) => {
                out.append("-");
                out.append(g.as_str());
            },
            None => {},
        }
        assert(out@ =~= bcp47_text(self@));
        out
    }

    /// Whether the language subtag is the undetermined `"und"`.
    pub fn is_undetermined(&self) -> (r: bool)
        ensures
            r == (self@.0 == und()),
    {
        proof {
            use_type_invariant(self);
        }
        let l = self.language.as_str();
        let r = l.unicode_len() == 3 && l.get_char(0) == 'u' && l.get_char(1) == 'n' && l.get_char(
            2,
        ) == 'd';
        proof {
            if r {
                assert(l@ =~= und());
            }
        }
        r
    }
}

impl Default for Language {
    /// The undetermined language, as `Language::new` gives it.
    fn default() -> (r: Self)
        ensures
            r@ == (und(), None::<Seq<char>>, None::<Seq<char>>),
    {
        Self::new()
    }
}

impl core::str::FromStr for Language {
    type Err = LanguageError;

    /// Parses a BCP-47 tag, as `Language::from_bcp47` does.
    fn from_str(s: &str) -> (r: Result<Self, LanguageError>)
        ensures
            match r {
                Ok(l) => bcp47_langid(s@) == Some(l@) && is_language_tag(l@),
                Err(e) => {
                    &&& bcp47_langid(s@) is None
                    &&& e matches LanguageError::MalformedBcp47(t) && t@ == s@
                },
            },
            forall|v: LanguageTag|
                is_language_tag(v) && s@ == bcp47_text(v) ==> (r matches Ok(l) && l@ == v),
    {
        Self::from_bcp47(s)
    }
}

/// Why a `Language` could not be built or parsed. Each variant carries
/// the offending text.
#[derive(Debug, Clone, PartialEq, Eq, Hash)]
#[non_exhaustive]
pub enum LanguageError {
    /// The language subtag is not two or three ASCII letters.
    InvalidLanguage(String),
    /// The script subtag is not four ASCII letters.
    InvalidScript(String),
    /// The region subtag is not two ASCII letters or three digits.
    InvalidRegion(String),
    /// The input is not a well-formed BCP-47 language identifier.
    MalformedBcp47(String),
}

} // verus!
