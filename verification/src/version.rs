//! The version of the toolchain: three numbers and two optional tags, and the one
//! line of text that names it.

use crate::decimal::{decimal, is_digit, lemma_decimal_digits, lemma_decimal_injective, push_decimal};
use vstd::prelude::*;
use vstd::string::*;

verus! {

/// Whether `c` may stand inside a segment of a tag: a digit, an ASCII letter or `-`.
pub open spec fn is_tag_char(c: char) -> bool {
    is_digit(c) || ('a' <= c && c <= 'z') || ('A' <= c && c <= 'Z') || c == '-'
}

/// Whether `text` is one or more segments with a `.` between each two, every segment
/// made of one or more tag characters.
pub open spec fn is_dotted(text: Seq<char>) -> bool {
    &&& text.len() > 0
    &&& forall|i: int| 0 <= i < text.len() ==> is_tag_char(#[trigger] text[i]) || text[i] == '.'
    &&& text.first() != '.'
    &&& text.last() != '.'
    &&& forall|i: int|
        0 <= i < text.len() - 1 ==> !(#[trigger] text[i] == '.' && text[i + 1] == '.')
}

/// Whether the characters of `text` from `from` up to, not including, `to` are one
/// whole segment.
pub open spec fn is_segment(text: Seq<char>, from: int, to: int) -> bool {
    &&& 0 <= from < to <= text.len()
    &&& (from == 0 || text[from - 1] == '.')
    &&& (to == text.len() || text[to] == '.')
    &&& forall|k: int| from <= k < to ==> #[trigger] text[k] != '.'
}

/// Whether some segment of `text` is a number written with a needless leading zero.
pub open spec fn has_padded_number(text: Seq<char>) -> bool {
    exists|from: int, to: int|
        {
            &&& #[trigger] is_segment(text, from, to)
            &&& to - from > 1
            &&& text[from] == '0'
            &&& forall|k: int| from <= k < to ==> is_digit(#[trigger] text[k])
        }
}

/// Whether `text` can be a pre-release tag: dotted, and no number in it has a leading
/// zero.
pub open spec fn is_prerelease(text: Seq<char>) -> bool {
    is_dotted(text) && !has_padded_number(text)
}

/// Whether `text` can be a build tag: dotted.
pub open spec fn is_build(text: Seq<char>) -> bool {
    is_dotted(text)
}

/// A tag behind its mark, or nothing where there is no tag.
pub open spec fn tag_text(mark: char, tag: Seq<char>) -> Seq<char> {
    if tag.len() == 0 {
        Seq::<char>::empty()
    } else {
        seq![mark] + tag
    }
}

/// A version as a mathematical value. An empty tag means that the version has none.
pub struct VersionModel {
    pub major: nat,
    pub minor: nat,
    pub patch: nat,
    pub pre: Seq<char>,
    pub build: Seq<char>,
}

impl VersionModel {
    /// The numbers fit 64 bits and each tag is absent or well formed.
    pub open spec fn is_valid(self) -> bool {
        &&& self.major <= u64::MAX
        &&& self.minor <= u64::MAX
        &&& self.patch <= u64::MAX
        &&& (self.pre.len() == 0 || is_prerelease(self.pre))
        &&& (self.build.len() == 0 || is_build(self.build))
    }

    /// The version in one line: the three numbers with `.` between, then the
    /// pre-release tag behind `-` and the build tag behind `+`, each only if present.
    pub open spec fn text(self) -> Seq<char> {
        decimal(self.major) + (seq!['.'] + (decimal(self.minor) + (seq!['.'] + (decimal(self.patch)
            + (tag_text('-', self.pre) + tag_text('+', self.build))))))
    }
}

/// Whether `text` is the one-line text of the valid version `version`.
pub open spec fn denotes(text: Seq<char>, version: VersionModel) -> bool {
    version.is_valid() && version.text() == text
}

/// The version that `text` is the one-line text of; `None` where it is the text of
/// no valid version.
pub open spec fn parsed(text: Seq<char>) -> Option<VersionModel> {
    if exists|version: VersionModel| denotes(text, version) {
        Some(choose|version: VersionModel| denotes(text, version))
    } else {
        None
    }
}

/// Where the same text is cut in two at two places, each time behind characters of
/// one kind and before a character that is not of that kind (or before the end), the
/// two places are the same.
pub proof fn lemma_cut_unique(
    head_a: Seq<char>,
    tail_a: Seq<char>,
    head_b: Seq<char>,
    tail_b: Seq<char>,
    kind: spec_fn(char) -> bool,
)
    requires
        head_a + tail_a == head_b + tail_b,
        forall|i: int| 0 <= i < head_a.len() ==> kind(#[trigger] head_a[i]),
        forall|i: int| 0 <= i < head_b.len() ==> kind(#[trigger] head_b[i]),
        tail_a.len() == 0 || !kind(tail_a[0]),
        tail_b.len() == 0 || !kind(tail_b[0]),
    ensures
        head_a == head_b,
        tail_a == tail_b,
{
    let whole = head_a + tail_a;
    assert(whole.len() == head_a.len() + tail_a.len());
    assert(whole.len() == head_b.len() + tail_b.len());
    if head_a.len() < head_b.len() {
        let k = head_a.len() as int;
        assert(whole[k] == tail_a[0]);
        assert((head_b + tail_b)[k] == head_b[k]);
        assert(false);
    }
    if head_b.len() < head_a.len() {
        let k = head_b.len() as int;
        assert((head_b + tail_b)[k] == tail_b[0]);
        assert(whole[k] == head_a[k]);
        assert(false);
    }
    assert forall|i: int| 0 <= i < head_a.len() implies head_a[i] == head_b[i] by {
        assert(whole[i] == head_a[i]);
        assert((head_b + tail_b)[i] == head_b[i]);
    }
    assert(head_a =~= head_b);
    assert forall|i: int| 0 <= i < tail_a.len() implies tail_a[i] == tail_b[i] by {
        assert(whole[head_a.len() + i] == tail_a[i]);
        assert((head_b + tail_b)[head_b.len() + i] == tail_b[i]);
    }
    assert(tail_a =~= tail_b);
}

/// Two texts that are equal behind the same first character are equal.
pub proof fn lemma_strip_mark(mark: char, a: Seq<char>, b: Seq<char>)
    requires
        seq![mark] + a == seq![mark] + b,
    ensures
        a == b,
{
    assert((seq![mark] + a).subrange(1, 1 + a.len() as int) =~= a);
    assert((seq![mark] + b).subrange(1, 1 + b.len() as int) =~= b);
    assert((seq![mark] + a).len() == 1 + a.len());
    assert((seq![mark] + b).len() == 1 + b.len());
}

/// The one-line text tells the version: two valid versions with the same text have
/// the same numbers and the same tags.
pub proof fn lemma_text_injective(a: VersionModel, b: VersionModel)
    requires
        a.is_valid(),
        b.is_valid(),
        a.text() == b.text(),
    ensures
        a == b,
{
    let digit = |c: char| is_digit(c);
    let no_plus = |c: char| c != '+';
    lemma_decimal_digits(a.major);
    lemma_decimal_digits(a.minor);
    lemma_decimal_digits(a.patch);
    lemma_decimal_digits(b.major);
    lemma_decimal_digits(b.minor);
    lemma_decimal_digits(b.patch);
    let tags_a = tag_text('-', a.pre) + tag_text('+', a.build);
    let tags_b = tag_text('-', b.pre) + tag_text('+', b.build);
    let from_patch_a = decimal(a.patch) + tags_a;
    let from_patch_b = decimal(b.patch) + tags_b;
    let from_minor_a = decimal(a.minor) + (seq!['.'] + from_patch_a);
    let from_minor_b = decimal(b.minor) + (seq!['.'] + from_patch_b);
    // The major number ends at the first dot.
    lemma_cut_unique(
        decimal(a.major),
        seq!['.'] + from_minor_a,
        decimal(b.major),
        seq!['.'] + from_minor_b,
        digit,
    );
    lemma_decimal_injective(a.major, b.major);
    lemma_strip_mark('.', from_minor_a, from_minor_b);
    // The minor number ends at the next dot.
    lemma_cut_unique(
        decimal(a.minor),
        seq!['.'] + from_patch_a,
        decimal(b.minor),
        seq!['.'] + from_patch_b,
        digit,
    );
    lemma_decimal_injective(a.minor, b.minor);
    lemma_strip_mark('.', from_patch_a, from_patch_b);
    // The patch number ends at the end, or at the mark of a tag.
    assert(tags_a.len() > 0 ==> tags_a[0] == '-' || tags_a[0] == '+');
    assert(tags_b.len() > 0 ==> tags_b[0] == '-' || tags_b[0] == '+');
    lemma_cut_unique(decimal(a.patch), tags_a, decimal(b.patch), tags_b, digit);
    lemma_decimal_injective(a.patch, b.patch);
    // A pre-release tag is there in both or in neither, and ends before `+`.
    let build_a = tag_text('+', a.build);
    let build_b = tag_text('+', b.build);
    if a.pre.len() == 0 && b.pre.len() > 0 {
        assert(tags_a =~= build_a);
        assert(tags_b[0] == '-');
        assert(false);
    }
    if b.pre.len() == 0 && a.pre.len() > 0 {
        assert(tags_b =~= build_b);
        assert(tags_a[0] == '-');
        assert(false);
    }
    if a.pre.len() > 0 {
        assert(tags_a =~= seq!['-'] + (a.pre + build_a));
        assert(tags_b =~= seq!['-'] + (b.pre + build_b));
        lemma_strip_mark('-', a.pre + build_a, b.pre + build_b);
        assert forall|i: int| 0 <= i < a.pre.len() implies no_plus(#[trigger] a.pre[i]) by {
            assert(is_tag_char(a.pre[i]) || a.pre[i] == '.');
        }
        assert forall|i: int| 0 <= i < b.pre.len() implies no_plus(#[trigger] b.pre[i]) by {
            assert(is_tag_char(b.pre[i]) || b.pre[i] == '.');
        }
        lemma_cut_unique(a.pre, build_a, b.pre, build_b, no_plus);
    } else {
        assert(a.pre =~= b.pre);
        assert(tags_a =~= build_a);
        assert(tags_b =~= build_b);
    }
    // What is left is the build tag behind its mark, or nothing.
    assert(build_a == build_b);
    if a.build.len() > 0 {
        assert(build_b.len() > 0);
        lemma_strip_mark('+', a.build, b.build);
    } else {
        assert(build_b.len() == 0);
        assert(a.build =~= b.build);
    }
}

/// Reading the one-line text of a valid version gives that version back: the same
/// numbers and the same tags.
pub proof fn lemma_text_round_trip(version: VersionModel)
    requires
        version.is_valid(),
    ensures
        parsed(version.text()) == Some(version),
{
    let text = version.text();
    assert(denotes(text, version));
    let found = choose|found: VersionModel| denotes(text, found);
    lemma_text_injective(found, version);
}

/// Asks `semver::Prerelease::new` whether it takes `text` as a pre-release tag.
///
/// Trusted: it takes the empty text, and otherwise exactly the texts made of
/// segments with `.` between, each segment one or more of the characters `0-9`,
/// `A-Z`, `a-z` and `-`, where no segment of digits alone, longer than one
/// character, starts with `0`.
#[verifier::external_body]
fn prerelease_accepted(text: &str) -> (accepted: bool)
    ensures
        accepted == (text@.len() == 0 || is_prerelease(text@)),
{
    semver::Prerelease::new(text).is_ok()
}

/// Asks `semver::BuildMetadata::new` whether it takes `text` as a build tag.
///
/// Trusted: it takes the empty text, and otherwise exactly the texts made of
/// segments with `.` between, each segment one or more of the characters `0-9`,
/// `A-Z`, `a-z` and `-`.
#[verifier::external_body]
fn build_accepted(text: &str) -> (accepted: bool)
    ensures
        accepted == (text@.len() == 0 || is_build(text@)),
{
    semver::BuildMetadata::new(text).is_ok()
}

/// Which tag of a version was found malformed.
#[derive(Clone, Copy, Debug, PartialEq, Eq, Structural)]
pub enum MalformedTag {
    /// The pre-release tag.
    Prerelease,
    /// The build tag, the pre-release tag being in order.
    Build,
}

/// The version that the toolchain reports of itself. Each tag is the empty string
/// or well formed.
#[derive(Debug, PartialEq, Eq)]
pub struct ToolchainVersion {
    major: u64,
    minor: u64,
    patch: u64,
    pre: String,
    build: String,
}

impl View for ToolchainVersion {
    type V = VersionModel;

    closed spec fn view(&self) -> VersionModel {
        VersionModel {
            major: self.major as nat,
            minor: self.minor as nat,
            patch: self.patch as nat,
            pre: self.pre@,
            build: self.build@,
        }
    }
}

impl ToolchainVersion {
    #[verifier::type_invariant]
    closed spec fn inv(self) -> bool {
        self@.is_valid()
    }

    /// The version with the given numbers and tags; an empty tag for none. A tag that
    /// is neither empty nor well formed is refused, the pre-release tag first.
    pub fn new(major: u64, minor: u64, patch: u64, pre: &str, build: &str) -> (version: Result<
        ToolchainVersion,
        MalformedTag,
    >)
        ensures
            match version {
                Ok(v) => {
                    &&& v@.is_valid()
                    &&& v@ == (VersionModel {
                        major: major as nat,
                        minor: minor as nat,
                        patch: patch as nat,
                        pre: pre@,
                        build: build@,
                    })
                },
                Err(MalformedTag::Prerelease) => pre@.len() > 0 && !is_prerelease(pre@),
                Err(MalformedTag::Build) => {
                    &&& pre@.len() == 0 || is_prerelease(pre@)
                    &&& build@.len() > 0 && !is_build(build@)
                },
            },
    {
        if !prerelease_accepted(pre) {
            return Err(MalformedTag::Prerelease);
        }
        if !build_accepted(build) {
            return Err(MalformedTag::Build);
        }
        Ok(ToolchainVersion { major, minor, patch, pre: pre.to_owned(), build: build.to_owned() })
    }

    /// The major number.
    pub fn major(&self) -> (major: u64)
        ensures
            major == self@.major,
            self@.is_valid(),
    {
        proof {
            use_type_invariant(self);
        }
        self.major
    }

    /// The minor number.
    pub fn minor(&self) -> (minor: u64)
        ensures
            minor == self@.minor,
            self@.is_valid(),
    {
        proof {
            use_type_invariant(self);
        }
        self.minor
    }

    /// The patch number.
    pub fn patch(&self) -> (patch: u64)
        ensures
            patch == self@.patch,
            self@.is_valid(),
    {
        proof {
            use_type_invariant(self);
        }
        self.patch
    }

    /// The pre-release tag; empty for none.
    pub fn pre(&self) -> (pre: &str)
        ensures
            pre@ == self@.pre,
            self@.is_valid(),
    {
        proof {
            use_type_invariant(self);
        }
        self.pre.as_str()
    }

    /// The build tag; empty for none.
    pub fn build(&self) -> (build: &str)
        ensures
            build@ == self@.build,
            self@.is_valid(),
    {
        proof {
            use_type_invariant(self);
        }
        self.build.as_str()
    }

    /// The version in one line, as `VersionModel::text` says.
    pub fn to_text(&self) -> (text: String)
        ensures
            text@ == self@.text(),
            self@.is_valid(),
    {
        proof {
            use_type_invariant(self);
        }
        let mut text = String::new();
        push_decimal(&mut text, self.major);
        push_mark(&mut text, '.');
        push_decimal(&mut text, self.minor);
        push_mark(&mut text, '.');
        push_decimal(&mut text, self.patch);
        let ghost numbers = text@;
        assert(numbers =~= decimal(self@.major) + (seq!['.'] + (decimal(self@.minor) + (seq!['.']
            + decimal(self@.patch)))));
        push_tag(&mut text, '-', self.pre.as_str());
        push_tag(&mut text, '+', self.build.as_str());
        assert(text@ =~= numbers + (tag_text('-', self@.pre) + tag_text('+', self@.build)));
        assert(text@ =~= self@.text());
        text
    }
}

/// Appends `.`, `-` or `+` to `out`.
fn push_mark(out: &mut String, mark: char)
    requires
        mark == '.' || mark == '-' || mark == '+',
    ensures
        final(out)@ == old(out)@ + seq![mark],
{
    proof {
        reveal_strlit(".");
        reveal_strlit("-");
        reveal_strlit("+");
    }
    if mark == '.' {
        out.append(".");
    } else if mark == '-' {
        out.append("-");
    } else {
        out.append("+");
    }
    assert(final(out)@ =~= old(out)@ + seq![mark]);
}

/// Appends `tag` behind its mark to `out`, or nothing where `tag` is empty.
fn push_tag(out: &mut String, mark: char, tag: &str)
    requires
        mark == '-' || mark == '+',
    ensures
        final(out)@ == old(out)@ + tag_text(mark, tag@),
{
    if !tag.is_empty() {
        push_mark(out, mark);
        out.append(tag);
    }
    assert(final(out)@ =~= old(out)@ + tag_text(mark, tag@));
}

impl Clone for ToolchainVersion {
    fn clone(&self) -> (copy: ToolchainVersion)
        ensures
            copy@ == self@,
    {
        proof {
            use_type_invariant(self);
        }
        ToolchainVersion {
            major: self.major,
            minor: self.minor,
            patch: self.patch,
            pre: self.pre.clone(),
            build: self.build.clone(),
        }
    }
}

/// One tag of a structured version.
#[derive(Debug, PartialEq, Eq)]
pub enum Tag {
    /// The version has no such tag.
    Empty,
    /// The tag, which is not empty.
    Text(String),
}

impl View for Tag {
    type V = Seq<char>;

    open spec fn view(&self) -> Seq<char> {
        match self {
            Tag::Empty => Seq::<char>::empty(),
            Tag::Text(text) => text@,
        }
    }
}

impl Clone for Tag {
    fn clone(&self) -> (copy: Tag)
        ensures
            copy == *self,
    {
        match self {
            Tag::Empty => Tag::Empty,
            Tag::Text(text) => Tag::Text(text.clone()),
        }
    }
}

impl Tag {
    /// The marker for no tag where `text` is empty, else `text` as a tag.
    pub fn from_text(text: &str) -> (tag: Tag)
        ensures
            tag@ == text@,
            tag is Empty <==> text@.len() == 0,
    {
        if text.is_empty() {
            Tag::Empty
        } else {
            Tag::Text(text.to_owned())
        }
    }

    /// The tag as text; empty for the marker.
    pub fn as_str(&self) -> (text: &str)
        ensures
            text@ == self@,
    {
        match self {
            Tag::Empty => {
                proof {
                    reveal_strlit("");
                }
                ""
            },
            Tag::Text(text) => text.as_str(),
        }
    }
}

/// A version as a structured value: the three numbers, and for each tag either the
/// marker for none or a tag that is not empty and well formed.
#[derive(Debug, PartialEq, Eq)]
pub struct StructuredVersion {
    major: u64,
    minor: u64,
    patch: u64,
    pre: Tag,
    build: Tag,
}

impl View for StructuredVersion {
    type V = VersionModel;

    closed spec fn view(&self) -> VersionModel {
        VersionModel {
            major: self.major as nat,
            minor: self.minor as nat,
            patch: self.patch as nat,
            pre: self.pre@,
            build: self.build@,
        }
    }
}

impl StructuredVersion {
    #[verifier::type_invariant]
    closed spec fn inv(self) -> bool {
        &&& self@.is_valid()
        &&& self.pre is Empty <==> self.pre@.len() == 0
        &&& self.build is Empty <==> self.build@.len() == 0
    }

    /// The structured value of `version`: the same numbers, and each tag turned into
    /// the marker for none where it is empty.
    pub fn of(version: &ToolchainVersion) -> (structured: StructuredVersion)
        ensures
            structured@ == version@,
            structured@.is_valid(),
    {
        let pre = Tag::from_text(version.pre());
        let build = Tag::from_text(version.build());
        StructuredVersion {
            major: version.major(),
            minor: version.minor(),
            patch: version.patch(),
            pre,
            build,
        }
    }

    /// The major number.
    pub fn major(&self) -> (major: u64)
        ensures
            major == self@.major,
            self@.is_valid(),
    {
        proof {
            use_type_invariant(self);
        }
        self.major
    }

    /// The minor number.
    pub fn minor(&self) -> (minor: u64)
        ensures
            minor == self@.minor,
            self@.is_valid(),
    {
        proof {
            use_type_invariant(self);
        }
        self.minor
    }

    /// The patch number.
    pub fn patch(&self) -> (patch: u64)
        ensures
            patch == self@.patch,
            self@.is_valid(),
    {
        proof {
            use_type_invariant(self);
        }
        self.patch
    }

    /// The pre-release tag: the marker for none, or a well-formed tag.
    pub fn pre(&self) -> (pre: &Tag)
        ensures
            pre@ == self@.pre,
            pre is Empty <==> self@.pre.len() == 0,
            self@.is_valid(),
    {
        proof {
            use_type_invariant(self);
        }
        &self.pre
    }

    /// The build tag: the marker for none, or a well-formed tag.
    pub fn build(&self) -> (build: &Tag)
        ensures
            build@ == self@.build,
            build is Empty <==> self@.build.len() == 0,
            self@.is_valid(),
    {
        proof {
            use_type_invariant(self);
        }
        &self.build
    }
}

impl Clone for StructuredVersion {
    fn clone(&self) -> (copy: StructuredVersion)
        ensures
            copy@ == self@,
    {
        proof {
            use_type_invariant(self);
        }
        StructuredVersion {
            major: self.major,
            minor: self.minor,
            patch: self.patch,
            pre: self.pre.clone(),
            build: self.build.clone(),
        }
    }
}

} // verus!
