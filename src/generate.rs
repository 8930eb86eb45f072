use vstd::prelude::*;
use vstd::string::*;

verus! {

/// An optional initializer expression of a member, emitted verbatim.
pub enum Default {
    Absent,
    Value(String),
}

impl Default {
    /// The text that follows the member's name: nothing, or ` = {expr}`.
    pub open spec fn text(&self) -> Seq<char> {
        match self {
            Default::Absent => Seq::empty(),
            Default::Value(v) => " = "@ + v@,
        }
    }

    pub fn serialize(&self) -> (r: String)
        ensures
            r@ == self.text(),
            self is Absent ==> r@ == Seq::<char>::empty(),
    {
        match self {
            Default::Absent => String::new(),
            Default::Value(v) => {
                let mut out = String::from_str(" = ");
                out.append(v.as_str());
                out
            },
        }
    }
}


/// `n` space characters.
pub open spec fn spaces(n: nat) -> Seq<char>
    decreases n,
{
    if n == 0 {
        Seq::empty()
    } else {
        spaces((n - 1) as nat) + " "@
    }
}

/// Builds a string of `n` spaces.
fn indentation(n: usize) -> (r: String)
    ensures
        r@ == spaces(n as nat),
{
    let mut out = String::new();
    let mut i: usize = 0;
    while i < n
        invariant
            i <= n,
            out@ == spaces(i as nat),
        decreases n - i,
    {
        out.append(" ");
        i = i + 1;
    }
    out
}

/// An optional one-line documentation comment of a member or a record.
pub enum Docstring {
    Absent,
    Simple(String),
}

impl Docstring {
    /// The comment line at the given indentation: nothing, or
    /// `{indent spaces}/// {text}` and a newline.
    pub open spec fn text(&self, indent: nat) -> Seq<char> {
        match self {
            Docstring::Absent => Seq::empty(),
            Docstring::Simple(v) => spaces(indent) + "/// "@ + v@ + "\n"@,
        }
    }

    pub fn serialize(&self, indent: usize) -> (r: String)
        ensures
            r@ == self.text(indent as nat),
            self is Absent ==> r@ == Seq::<char>::empty(),
    {
        match self {
            Docstring::Absent => String::new(),
            Docstring::Simple(v) => {
                let mut out = indentation(indent);
                out.append("/// ");
                out.append(v.as_str());
                out.append("\n");
                out
            },
        }
    }
}


/// One field of a record: its type, its name, its comment and its default.
pub struct MemberVariable {
    pub dtype: String,
    pub name: String,
    pub comment: Docstring,
    pub default: Default,
}

impl MemberVariable {
    /// The comment line, if any, followed by
    /// `{indent spaces}{dtype} {name}{default};` and a newline.
    pub open spec fn text(&self, indent: nat) -> Seq<char> {
        self.comment.text(indent) + spaces(indent) + self.dtype@ + " "@ + self.name@
            + self.default.text() + ";\n"@
    }

    pub fn serialize(&self, indent: usize) -> (r: String)
        ensures
            r@ == self.text(indent as nat),
            self.comment is Absent && self.default is Absent ==> r@ == spaces(indent as nat)
                + self.dtype@ + " "@ + self.name@ + ";\n"@,
            self.comment is Simple && self.default is Value ==> r@ == self.comment.text(
                indent as nat,
            ) + spaces(indent as nat) + self.dtype@ + " "@ + self.name@ + " = "@
                + self.default->Value_0@ + ";\n"@,
    {
        let mut out = self.comment.serialize(indent);
        let indent_str = indentation(indent);
        out.append(indent_str.as_str());
        out.append(self.dtype.as_str());
        out.append(" ");
        out.append(self.name.as_str());
        let default_str = self.default.serialize();
        out.append(default_str.as_str());
        out.append(";\n");
        out
    }
}

/// The indentation of the members inside a record.
pub const MEMBER_INDENT: usize = 4;

/// The members rendered at the member indentation, in order, with a newline
/// between each two of them.
pub open spec fn members_text(ms: Seq<MemberVariable>) -> Seq<char>
    decreases ms.len(),
{
    if ms.len() == 0 {
        Seq::empty()
    } else if ms.len() == 1 {
        ms[0].text(MEMBER_INDENT as nat)
    } else {
        members_text(ms.drop_last()) + "\n"@ + ms.last().text(MEMBER_INDENT as nat)
    }
}

/// A named record: its comment and its members in declaration order.
pub struct PlainOldStruct {
    pub docs: Docstring,
    pub name: String,
    pub member_variables: Vec<MemberVariable>,
}

impl PlainOldStruct {
    /// The text up to and including the line that opens the body.
    pub open spec fn head_text(&self) -> Seq<char> {
        self.docs.text(0) + "struct "@ + self.name@ + " {\n"@
    }

    /// `{docs}struct {name} {` and a newline, the members, then `};` and a
    /// blank line.
    pub open spec fn text(&self) -> Seq<char> {
        self.head_text() + members_text(self.member_variables@) + "};\n\n"@
    }

    pub fn serialize(&self) -> (r: String)
        ensures
            r@ == self.text(),
            self.member_variables@.len() == 0 ==> r@ == self.docs.text(0) + "struct "@
                + self.name@ + " {\n};\n\n"@,
            self.member_variables@.len() == 0 && self.docs is Absent ==> r@ == "struct "@
                + self.name@ + " {\n};\n\n"@,
    {
        let mut out = self.docs.serialize(0);
        out.append("struct ");
        out.append(self.name.as_str());
        out.append(" {\n");
        let ms = &self.member_variables;
        let mut i: usize = 0;
        while i < ms.len()
            invariant
                i <= ms@.len(),
                out@ == self.head_text() + members_text(ms@.take(i as int)),
            decreases ms@.len() - i,
        {
            assert(ms@.take(i + 1).drop_last() =~= ms@.take(i as int));
            if i > 0 {
                out.append("\n");
            }
            let member_str = ms[i].serialize(MEMBER_INDENT);
            out.append(member_str.as_str());
            i = i + 1;
        }
        assert(ms@.take(ms@.len() as int) =~= ms@);
        out.append("};\n\n");
        proof {
            reveal_strlit(" {\n");
            reveal_strlit("};\n\n");
            reveal_strlit(" {\n};\n\n");
            if ms@.len() == 0 {
                assert(" {\n"@ + "};\n\n"@ =~= " {\n};\n\n"@);
            }
        }
        out
    }
}

} // verus!
