//! On-disk editor buffers for the edit and create flows: a `---`
//! frontmatter of `key: value` lines followed by a markdown body, with an
//! optional header above the frontmatter for guidance text.

use vstd::prelude::*;

use crate::lines::{
    chars_eq, index_of, joined, lemma_index_of_at, lemma_index_of_bound, lines_of, push_chars,
    push_str, slice_chars, terminated, text_lines, trim, trim_chars,
};
use crate::order::{first_from, lemma_first_from_found, lemma_first_from_none};
use crate::text::{chars_of, string_from_chars};

verus! {

/// An issue as the editor shows it.
#[derive(Debug, Clone)]
pub struct IssueBuffer {
    pub header: String,
    pub title: String,
    pub status: String,
    pub priority: String,
    pub milestone: String,
    pub parent: String,
    pub description: String,
}

/// The text of an [`IssueBuffer`]'s fields.
pub struct IssueText {
    pub header: Seq<char>,
    pub title: Seq<char>,
    pub status: Seq<char>,
    pub priority: Seq<char>,
    pub milestone: Seq<char>,
    pub parent: Seq<char>,
    pub description: Seq<char>,
}

impl View for IssueBuffer {
    type V = IssueText;

    open spec fn view(&self) -> IssueText {
        IssueText {
            header: self.header@,
            title: self.title@,
            status: self.status@,
            priority: self.priority@,
            milestone: self.milestone@,
            parent: self.parent@,
            description: self.description@,
        }
    }
}

/// A milestone as the editor shows it.
#[derive(Debug, Clone)]
pub struct MilestoneBuffer {
    pub header: String,
    pub name: String,
    pub target: String,
    pub status: String,
    pub description: String,
}

impl Default for IssueBuffer {
    fn default() -> (r: Self)
        ensures
            r@.header == Seq::<char>::empty() && r@.title == Seq::<char>::empty() && r@.status == Seq::<char>::empty()
                && r@.priority == Seq::<char>::empty() && r@.milestone == Seq::<char>::empty() && r@.parent == Seq::<char>::empty()
                && r@.description == Seq::<char>::empty(),
    {
        IssueBuffer {
            header: String::new(),
            title: String::new(),
            status: String::new(),
            priority: String::new(),
            milestone: String::new(),
            parent: String::new(),
            description: String::new(),
        }
    }
}

impl Default for MilestoneBuffer {
    fn default() -> (r: Self)
        ensures
            r@.header == Seq::<char>::empty() && r@.name == Seq::<char>::empty() && r@.target == Seq::<char>::empty() && r@.status.len()
                == 0 && r@.description == Seq::<char>::empty(),
    {
        MilestoneBuffer {
            header: String::new(),
            name: String::new(),
            target: String::new(),
            status: String::new(),
            description: String::new(),
        }
    }
}

impl Default for ProjectBuffer {
    fn default() -> (r: Self)
        ensures
            r@.header == Seq::<char>::empty() && r@.name == Seq::<char>::empty() && r@.description == Seq::<char>::empty(),
    {
        ProjectBuffer { header: String::new(), name: String::new(), description: String::new() }
    }
}

pub struct MilestoneText {
    pub header: Seq<char>,
    pub name: Seq<char>,
    pub target: Seq<char>,
    pub status: Seq<char>,
    pub description: Seq<char>,
}

impl View for MilestoneBuffer {
    type V = MilestoneText;

    open spec fn view(&self) -> MilestoneText {
        MilestoneText {
            header: self.header@,
            name: self.name@,
            target: self.target@,
            status: self.status@,
            description: self.description@,
        }
    }
}

/// A project as the editor shows it.
#[derive(Debug, Clone)]
pub struct ProjectBuffer {
    pub header: String,
    pub name: String,
    pub description: String,
}

pub struct ProjectText {
    pub header: Seq<char>,
    pub name: Seq<char>,
    pub description: Seq<char>,
}

impl View for ProjectBuffer {
    type V = ProjectText;

    open spec fn view(&self) -> ProjectText {
        ProjectText { header: self.header@, name: self.name@, description: self.description@ }
    }
}

/// The header as written: nothing, or the header ending in a newline.
pub open spec fn header_part(h: Seq<char>) -> Seq<char> {
    if h.len() == 0 || h.last() == '\n' {
        h
    } else {
        h.push('\n')
    }
}

/// The body as written: the description ending in a newline.
pub open spec fn body_part(d: Seq<char>) -> Seq<char> {
    if d.len() > 0 && d.last() == '\n' {
        d
    } else {
        d.push('\n')
    }
}

/// A line break.
pub open spec fn nl() -> Seq<char> {
    seq!['\n']
}

pub open spec fn issue_text(b: IssueText) -> Seq<char> {
    header_part(b.header) + "---"@ + nl() + "title:     "@ + b.title + nl() + "status:    "@
        + b.status + nl() + "priority:  "@ + b.priority + nl() + "milestone: "@ + b.milestone
        + nl() + "parent:    "@ + b.parent + nl() + "---"@ + nl() + body_part(b.description)
}

pub open spec fn milestone_text(b: MilestoneText) -> Seq<char> {
    header_part(b.header) + "---"@ + nl() + "name:    "@ + b.name + nl() + "target:  "@
        + b.target + nl() + "status:  "@ + b.status + nl() + "---"@ + nl() + body_part(
        b.description,
    )
}

pub open spec fn project_text(b: ProjectText) -> Seq<char> {
    header_part(b.header) + "---"@ + nl() + "name: "@ + b.name + nl() + "---"@ + nl()
        + body_part(b.description)
}

/// Line `k` is a fence: `---` once trimmed.
pub open spec fn fence_at(ls: Seq<Seq<char>>) -> spec_fn(int) -> bool {
    |k: int| trim(ls[k]) == "---"@
}

/// The frontmatter and the body of a buffer: the lines between the first
/// two fences (each newline-terminated), and the lines after the second
/// fence joined by newlines.
pub open spec fn frontmatter(src: Seq<char>) -> Result<(Seq<char>, Seq<char>), Seq<char>> {
    let ls = text_lines(src);
    match first_from(0, ls.len() as int, fence_at(ls)) {
        None => Err("missing opening ---"@),
        Some(o) => match first_from(o + 1, ls.len() as int, fence_at(ls)) {
            None => Err("missing closing ---"@),
            Some(c) => Ok((terminated(ls.subrange(o + 1, c)), joined(ls.skip(c + 1)))),
        },
    }
}

/// The value of the last `key: value` line for `key` (both sides trimmed,
/// split at the first colon); empty when there is none.
pub open spec fn field_value(ls: Seq<Seq<char>>, key: Seq<char>) -> Seq<char>
    decreases ls.len(),
{
    if ls.len() == 0 {
        Seq::empty()
    } else {
        let l = ls.last();
        let c = index_of(l, ':');
        if c < l.len() && trim(l.take(c as int)) == key {
            trim(l.skip(c + 1 as int))
        } else {
            field_value(ls.drop_last(), key)
        }
    }
}

/// The description parsed from a body: trimmed, newline-terminated unless
/// empty.
pub open spec fn description_of(body: Seq<char>) -> Seq<char> {
    let d = trim(body);
    if d.len() == 0 {
        d
    } else {
        d.push('\n')
    }
}

pub open spec fn parse_issue_spec(src: Seq<char>) -> Result<IssueText, Seq<char>> {
    match frontmatter(src) {
        Err(e) => Err(e),
        Ok((f, b)) => {
            let ls = text_lines(f);
            let title = field_value(ls, "title"@);
            if title.len() == 0 {
                Err("title is required"@)
            } else {
                Ok(
                    IssueText {
                        header: Seq::empty(),
                        title,
                        status: field_value(ls, "status"@),
                        priority: field_value(ls, "priority"@),
                        milestone: field_value(ls, "milestone"@),
                        parent: field_value(ls, "parent"@),
                        description: description_of(b),
                    },
                )
            }
        },
    }
}

pub open spec fn parse_milestone_spec(src: Seq<char>) -> Result<MilestoneText, Seq<char>> {
    match frontmatter(src) {
        Err(e) => Err(e),
        Ok((f, b)) => {
            let ls = text_lines(f);
            let name = field_value(ls, "name"@);
            if name.len() == 0 {
                Err("name is required"@)
            } else {
                Ok(
                    MilestoneText {
                        header: Seq::empty(),
                        name,
                        target: field_value(ls, "target"@),
                        status: field_value(ls, "status"@),
                        description: description_of(b),
                    },
                )
            }
        },
    }
}

pub open spec fn parse_project_spec(src: Seq<char>) -> Result<ProjectText, Seq<char>> {
    match frontmatter(src) {
        Err(e) => Err(e),
        Ok((f, b)) => {
            let name = field_value(text_lines(f), "name"@);
            if name.len() == 0 {
                Err("name is required"@)
            } else {
                Ok(ProjectText { header: Seq::empty(), name, description: description_of(b) })
            }
        },
    }
}

/// Writes the header, newline-terminated, if there is one.
fn write_header(out: &mut Vec<char>, header: &String)
    ensures
        final(out)@ == old(out)@ + header_part(header@),
{
    let h = chars_of(header.as_str());
    if h.len() > 0 {
        push_chars(out, &h);
        if h[h.len() - 1] != '\n' {
            out.push('\n');
        }
    }
    proof {
        if h@.len() == 0 {
            assert(old(out)@ + header_part(header@) =~= old(out)@);
        }
    }
}

/// Writes the description, newline-terminated.
fn write_body(out: &mut Vec<char>, description: &String)
    ensures
        final(out)@ == old(out)@ + body_part(description@),
{
    let d = chars_of(description.as_str());
    push_chars(out, &d);
    if d.len() == 0 || d[d.len() - 1] != '\n' {
        out.push('\n');
    }
}

impl IssueBuffer {
    /// The buffer as the editor file holds it.
    pub fn serialize(&self) -> (r: String)
        ensures
            r@ == issue_text(self@),
    {
        let mut s: Vec<char> = Vec::new();
        write_header(&mut s, &self.header);
        push_str(&mut s, "---");
        s.push('\n');
        push_str(&mut s, "title:     ");
        push_str(&mut s, self.title.as_str());
        s.push('\n');
        push_str(&mut s, "status:    ");
        push_str(&mut s, self.status.as_str());
        s.push('\n');
        push_str(&mut s, "priority:  ");
        push_str(&mut s, self.priority.as_str());
        s.push('\n');
        push_str(&mut s, "milestone: ");
        push_str(&mut s, self.milestone.as_str());
        s.push('\n');
        push_str(&mut s, "parent:    ");
        push_str(&mut s, self.parent.as_str());
        s.push('\n');
        push_str(&mut s, "---");
        s.push('\n');
        write_body(&mut s, &self.description);
        proof {
            assert(s@ =~= issue_text(self@));
        }
        string_from_chars(&s)
    }
}

impl MilestoneBuffer {
    /// The buffer as the editor file holds it.
    pub fn serialize(&self) -> (r: String)
        ensures
            r@ == milestone_text(self@),
    {
        let mut s: Vec<char> = Vec::new();
        write_header(&mut s, &self.header);
        push_str(&mut s, "---");
        s.push('\n');
        push_str(&mut s, "name:    ");
        push_str(&mut s, self.name.as_str());
        s.push('\n');
        push_str(&mut s, "target:  ");
        push_str(&mut s, self.target.as_str());
        s.push('\n');
        push_str(&mut s, "status:  ");
        push_str(&mut s, self.status.as_str());
        s.push('\n');
        push_str(&mut s, "---");
        s.push('\n');
        write_body(&mut s, &self.description);
        proof {
            assert(s@ =~= milestone_text(self@));
        }
        string_from_chars(&s)
    }
}

impl ProjectBuffer {
    /// The buffer as the editor file holds it.
    pub fn serialize(&self) -> (r: String)
        ensures
            r@ == project_text(self@),
    {
        let mut s: Vec<char> = Vec::new();
        write_header(&mut s, &self.header);
        push_str(&mut s, "---");
        s.push('\n');
        push_str(&mut s, "name: ");
        push_str(&mut s, self.name.as_str());
        s.push('\n');
        push_str(&mut s, "---");
        s.push('\n');
        write_body(&mut s, &self.description);
        proof {
            assert(s@ =~= project_text(self@));
        }
        string_from_chars(&s)
    }
}

/// The first fence at or after line `from`.
fn find_fence(ls: &Vec<Vec<char>>, from: usize) -> (r: Option<usize>)
    requires
        from <= ls@.len(),
    ensures
        ({
            let v = ls@.map_values(|l: Vec<char>| l@);
            match r {
                Some(k) => first_from(from as int, v.len() as int, fence_at(v)) == Some(k as int),
                None => first_from(from as int, v.len() as int, fence_at(v)) is None,
            }
        }),
{
    let ghost v = ls@.map_values(|l: Vec<char>| l@);
    let ghost p = fence_at(v);
    let dash = chars_of("---");
    let mut k = from;
    while k < ls.len()
        invariant
            from <= k <= ls@.len(),
            v == ls@.map_values(|l: Vec<char>| l@),
            p == fence_at(v),
            dash@ == "---"@,
            forall|j: int| from <= j < k ==> !#[trigger] p(j),
        decreases ls.len() - k,
    {
        let t = trim_chars(&ls[k]);
        if chars_eq(&t, &dash) {
            proof {
                assert(p(k as int));
                lemma_first_from_found(from as int, k as int, v.len() as int, p);
            }
            return Some(k);
        }
        proof {
            assert(!p(k as int));
        }
        k = k + 1;
    }
    proof {
        lemma_first_from_none(from as int, v.len() as int, p);
    }
    None
}

/// Splits a buffer into its frontmatter (the lines between the first two
/// `---` fences, each newline-terminated) and its body (the lines after the
/// second fence, joined by newlines).
pub fn split_frontmatter(src: &str) -> (r: Result<(String, String), String>)
    ensures
        match r {
            Ok(p) => frontmatter(src@) == Ok::<(Seq<char>, Seq<char>), Seq<char>>((p.0@, p.1@)),
            Err(e) => frontmatter(src@) == Err::<(Seq<char>, Seq<char>), Seq<char>>(e@),
        },
{
    let cs = chars_of(src);
    let ls = lines_of(&cs);
    let ghost v = ls@.map_values(|l: Vec<char>| l@);
    let o = match find_fence(&ls, 0) {
        Some(o) => o,
        None => return Err("missing opening ---".to_owned()),
    };
    proof {
        crate::order::lemma_first_from_props(0, v.len() as int, fence_at(v));
    }
    let c = match find_fence(&ls, o + 1) {
        Some(c) => c,
        None => return Err("missing closing ---".to_owned()),
    };
    proof {
        crate::order::lemma_first_from_props(o + 1, v.len() as int, fence_at(v));
    }
    let n = ls.len();
    let mut front: Vec<char> = Vec::new();
    let mut j = o + 1;
    proof {
        assert(v.subrange(o + 1, j as int) =~= Seq::<Seq<char>>::empty());
    }
    while j < c
        invariant
            o + 1 <= j <= c < ls@.len(),
            n == ls@.len(),
            v == ls@.map_values(|l: Vec<char>| l@),
            front@ == terminated(v.subrange(o + 1, j as int)),
        decreases c - j,
    {
        push_chars(&mut front, &ls[j]);
        front.push('\n');
        proof {
            assert(v.subrange(o + 1, j + 1).drop_last() =~= v.subrange(o + 1, j as int));
        }
        j = j + 1;
    }
    let mut body: Vec<char> = Vec::new();
    let mut k = c + 1;
    proof {
        assert(v.subrange(c + 1, k as int) =~= Seq::<Seq<char>>::empty());
    }
    while k < ls.len()
        invariant
            c + 1 <= k <= ls@.len(),
            v == ls@.map_values(|l: Vec<char>| l@),
            body@ == joined(v.subrange(c + 1, k as int)),
        decreases ls.len() - k,
    {
        if k > c + 1 {
            body.push('\n');
        }
        push_chars(&mut body, &ls[k]);
        proof {
            let s = v.subrange(c + 1, k + 1);
            assert(s.drop_last() =~= v.subrange(c + 1, k as int));
            if k == c + 1 {
                assert(body@ =~= s[0]);
            }
        }
        k = k + 1;
    }
    proof {
        assert(v.subrange(c + 1, v.len() as int) =~= v.skip(c + 1));
    }
    Ok((string_from_chars(&front), string_from_chars(&body)))
}

/// The value of the last `key: value` line for `key` (see [`field_value`]).
fn field_of(ls: &Vec<Vec<char>>, key: &str) -> (r: Vec<char>)
    ensures
        r@ == field_value(ls@.map_values(|l: Vec<char>| l@), key@),
{
    let ghost v = ls@.map_values(|l: Vec<char>| l@);
    let k = chars_of(key);
    let mut out: Vec<char> = Vec::new();
    let mut j: usize = 0;
    proof {
        assert(v.take(0) =~= Seq::<Seq<char>>::empty());
    }
    while j < ls.len()
        invariant
            j <= ls@.len(),
            v == ls@.map_values(|l: Vec<char>| l@),
            k@ == key@,
            out@ == field_value(v.take(j as int), key@),
        decreases ls.len() - j,
    {
        let l = &ls[j];
        let mut c: usize = 0;
        while c < l.len() && l[c] != ':'
            invariant
                c <= l@.len(),
                forall|m: int| 0 <= m < c ==> l@[m] != ':',
            decreases l.len() - c,
        {
            c = c + 1;
        }
        proof {
            lemma_index_of_at(l@, ':', c as int);
            assert(v.take(j + 1).drop_last() =~= v.take(j as int));
            assert(v.take(j + 1).last() == l@);
        }
        if c < l.len() {
            let name = trim_chars(&slice_chars(l, 0, c));
            if chars_eq(&name, &k) {
                out = trim_chars(&slice_chars(l, c + 1, l.len()));
                proof {
                    assert(l@.take(c as int) =~= l@.subrange(0, c as int));
                    assert(l@.skip(c + 1) =~= l@.subrange(c + 1, l@.len() as int));
                }
            } else {
                proof {
                    assert(l@.take(c as int) =~= l@.subrange(0, c as int));
                }
            }
        }
        j = j + 1;
    }
    proof {
        assert(v.take(v.len() as int) =~= v);
    }
    out
}

/// The description from a body (see [`description_of`]).
fn description_from(body: &String) -> (r: String)
    ensures
        r@ == description_of(body@),
{
    let b = chars_of(body.as_str());
    let mut d = trim_chars(&b);
    if d.len() > 0 {
        d.push('\n');
    }
    string_from_chars(&d)
}

/// Parses an issue buffer; the title is required.
pub fn parse_issue(src: &str) -> (r: Result<IssueBuffer, String>)
    ensures
        match r {
            Ok(b) => parse_issue_spec(src@) == Ok::<IssueText, Seq<char>>(b@),
            Err(e) => parse_issue_spec(src@) == Err::<IssueText, Seq<char>>(e@),
        },
{
    let (front, body) = match split_frontmatter(src) {
        Ok(p) => p,
        Err(e) => return Err(e),
    };
    let fl = lines_of(&chars_of(front.as_str()));
    let title = field_of(&fl, "title");
    if title.len() == 0 {
        return Err("title is required".to_owned());
    }
    let b = IssueBuffer {
        header: String::new(),
        title: string_from_chars(&title),
        status: string_from_chars(&field_of(&fl, "status")),
        priority: string_from_chars(&field_of(&fl, "priority")),
        milestone: string_from_chars(&field_of(&fl, "milestone")),
        parent: string_from_chars(&field_of(&fl, "parent")),
        description: description_from(&body),
    };
    Ok(b)
}

/// Parses a milestone buffer; the name is required.
pub fn parse_milestone(src: &str) -> (r: Result<MilestoneBuffer, String>)
    ensures
        match r {
            Ok(b) => parse_milestone_spec(src@) == Ok::<MilestoneText, Seq<char>>(b@),
            Err(e) => parse_milestone_spec(src@) == Err::<MilestoneText, Seq<char>>(e@),
        },
{
    let (front, body) = match split_frontmatter(src) {
        Ok(p) => p,
        Err(e) => return Err(e),
    };
    let fl = lines_of(&chars_of(front.as_str()));
    let name = field_of(&fl, "name");
    if name.len() == 0 {
        return Err("name is required".to_owned());
    }
    let b = MilestoneBuffer {
        header: String::new(),
        name: string_from_chars(&name),
        target: string_from_chars(&field_of(&fl, "target")),
        status: string_from_chars(&field_of(&fl, "status")),
        description: description_from(&body),
    };
    Ok(b)
}

/// Parses a project buffer; the name is required.
pub fn parse_project(src: &str) -> (r: Result<ProjectBuffer, String>)
    ensures
        match r {
            Ok(b) => parse_project_spec(src@) == Ok::<ProjectText, Seq<char>>(b@),
            Err(e) => parse_project_spec(src@) == Err::<ProjectText, Seq<char>>(e@),
        },
{
    let (front, body) = match split_frontmatter(src) {
        Ok(p) => p,
        Err(e) => return Err(e),
    };
    let fl = lines_of(&chars_of(front.as_str()));
    let name = field_of(&fl, "name");
    if name.len() == 0 {
        return Err("name is required".to_owned());
    }
    let b = ProjectBuffer {
        header: String::new(),
        name: string_from_chars(&name),
        description: description_from(&body),
    };
    Ok(b)
}

} // verus!
