//! Members of classes in class diagrams: visibility, attributes, methods and
//! their arguments, and the multiplicities at the ends of class edges.
use vstd::prelude::*;

use crate::config::same_opt_string;

verus! {

/// The visibility of a class member.
#[derive(Copy, Clone, Debug, PartialEq, Eq, Structural, Hash)]
pub enum Visibility {
    /// Public (`+`).
    Public,
    /// Private (`-`).
    Private,
    /// Protected (`#`).
    Protected,
    /// Package or internal (`~`).
    Package,
}

impl Visibility {
    /// The visibility as text.
    pub open spec fn text(self) -> Seq<char> {
        match self {
            Visibility::Public => "+"@,
            Visibility::Private => "-"@,
            Visibility::Protected => "#"@,
            Visibility::Package => "~"@,
        }
    }

    /// Returns the visibility as text.
    pub fn as_str(&self) -> (r: &'static str)
        ensures
            r@ == self.text(),
    {
        match self {
            Visibility::Public => "+",
            Visibility::Private => "-",
            Visibility::Protected => "#",
            Visibility::Package => "~",
        }
    }

    /// Returns the visibility as text.
    pub fn to_string(&self) -> (r: String)
        ensures
            r@ == self.text(),
    {
        String::from_str(self.as_str())
    }
}

/// The multiplicity at one end of a class edge.
#[derive(Copy, Clone, Debug, PartialEq, Eq, Structural, Hash)]
pub enum Multiplicity {
    /// Exactly one (`1`).
    One,
    /// Zero or one (`0..1`).
    ZeroOrOne,
    /// One or more (`1..*`).
    OneOrMore,
    /// Many (`*`).
    Many,
    /// `n`.
    N,
    /// Zero to `n` (`0..n`).
    ZeroToN,
    /// One to `n` (`1..n`).
    OneToN,
}

impl Multiplicity {
    /// The multiplicity as text.
    pub open spec fn text(self) -> Seq<char> {
        match self {
            Multiplicity::One => "1"@,
            Multiplicity::ZeroOrOne => "0..1"@,
            Multiplicity::OneOrMore => "1..*"@,
            Multiplicity::Many => "*"@,
            Multiplicity::N => "n"@,
            Multiplicity::ZeroToN => "0..n"@,
            Multiplicity::OneToN => "1..n"@,
        }
    }

    /// Returns the multiplicity as text.
    pub fn as_str(&self) -> (r: &'static str)
        ensures
            r@ == self.text(),
    {
        match self {
            Multiplicity::One => "1",
            Multiplicity::ZeroOrOne => "0..1",
            Multiplicity::OneOrMore => "1..*",
            Multiplicity::Many => "*",
            Multiplicity::N => "n",
            Multiplicity::ZeroToN => "0..n",
            Multiplicity::OneToN => "1..n",
        }
    }

    /// Returns the multiplicity as text.
    pub fn to_string(&self) -> (r: String)
        ensures
            r@ == self.text(),
    {
        String::from_str(self.as_str())
    }
}

/// What a class attribute holds.
pub struct ClassAttributeView {
    pub name: Seq<char>,
    pub attribute_type: Seq<char>,
    pub visibility: Visibility,
}

impl ClassAttributeView {
    /// The attribute as text: `<visibility> <name>: <type>`.
    pub open spec fn text(self) -> Seq<char> {
        self.visibility.text() + " "@ + self.name + ": "@ + self.attribute_type
    }
}

/// An attribute of a class.
#[derive(Clone, Debug, PartialEq, Eq, Hash)]
pub struct ClassAttribute {
    name: String,
    attribute_type: String,
    visibility: Visibility,
}

impl View for ClassAttribute {
    type V = ClassAttributeView;

    closed spec fn view(&self) -> ClassAttributeView {
        ClassAttributeView {
            name: self.name@,
            attribute_type: self.attribute_type@,
            visibility: self.visibility,
        }
    }
}

impl ClassAttribute {
    /// Creates a public attribute of the given type and name.
    pub fn new(attribute_type: &str, name: &str) -> (r: Self)
        ensures
            r@ == (ClassAttributeView {
                name: name@,
                attribute_type: attribute_type@,
                visibility: Visibility::Public,
            }),
    {
        ClassAttribute {
            name: name.to_owned(),
            attribute_type: attribute_type.to_owned(),
            visibility: Visibility::Public,
        }
    }

    /// Sets the visibility.
    pub fn visibility(self, visibility: Visibility) -> (r: Self)
        ensures
            r@ == (ClassAttributeView { visibility, ..self@ }),
    {
        ClassAttribute { visibility, ..self }
    }

    /// Returns whether `other` is the same attribute.
    pub fn same_as(&self, other: &ClassAttribute) -> (r: bool)
        ensures
            r == (self@ == other@),
    {
        self.name == other.name && self.attribute_type == other.attribute_type
            && self.visibility == other.visibility
    }

    /// Appends the attribute as text.
    pub fn push_text(&self, out: &mut String)
        ensures
            final(out)@ == old(out)@ + self@.text(),
    {
        out.append(self.visibility.as_str());
        out.append(" ");
        out.append(self.name.as_str());
        out.append(": ");
        out.append(self.attribute_type.as_str());
        assert(final(out)@ =~= old(out)@ + self@.text());
    }

    /// Returns the attribute as text.
    pub fn to_string(&self) -> (r: String)
        ensures
            r@ == self@.text(),
    {
        let mut out = String::new();
        self.push_text(&mut out);
        assert(out@ =~= self@.text());
        out
    }
}

/// What an argument of a method holds.
pub struct ArgumentView {
    pub name: Seq<char>,
    pub arg_type: Seq<char>,
}

impl ArgumentView {
    /// The argument as text: `<name>: <type>`.
    pub open spec fn text(self) -> Seq<char> {
        self.name + ": "@ + self.arg_type
    }
}

/// An argument of a method.
#[derive(Clone, Debug, PartialEq, Eq, Hash)]
pub struct Argument {
    name: String,
    arg_type: String,
}

impl View for Argument {
    type V = ArgumentView;

    closed spec fn view(&self) -> ArgumentView {
        ArgumentView { name: self.name@, arg_type: self.arg_type@ }
    }
}

impl Argument {
    /// Creates an argument of the given name and type.
    pub fn new(name: &str, arg_type: &str) -> (r: Self)
        ensures
            r@ == (ArgumentView { name: name@, arg_type: arg_type@ }),
    {
        Argument { name: name.to_owned(), arg_type: arg_type.to_owned() }
    }

    /// Returns whether `other` is the same argument.
    pub fn same_as(&self, other: &Argument) -> (r: bool)
        ensures
            r == (self@ == other@),
    {
        self.name == other.name && self.arg_type == other.arg_type
    }

    /// Appends the argument as text.
    pub fn push_text(&self, out: &mut String)
        ensures
            final(out)@ == old(out)@ + self@.text(),
    {
        out.append(self.name.as_str());
        out.append(": ");
        out.append(self.arg_type.as_str());
        assert(final(out)@ =~= old(out)@ + self@.text());
    }

    /// Returns the argument as text.
    pub fn to_string(&self) -> (r: String)
        ensures
            r@ == self@.text(),
    {
        let mut out = String::new();
        self.push_text(&mut out);
        assert(out@ =~= self@.text());
        out
    }
}

/// The views of a sequence of arguments.
pub open spec fn argument_views(args: Seq<Argument>) -> Seq<ArgumentView> {
    args.map_values(|a: Argument| a@)
}

/// The arguments as text, separated by `, `.
pub open spec fn arguments_text(args: Seq<ArgumentView>) -> Seq<char>
    decreases args.len(),
{
    if args.len() == 0 {
        Seq::empty()
    } else if args.len() == 1 {
        args[0].text()
    } else {
        arguments_text(args.drop_last()) + ", "@ + args.last().text()
    }
}

/// What a method of a class holds.
pub struct ClassMethodView {
    pub name: Seq<char>,
    pub arguments: Seq<ArgumentView>,
    pub return_type: Option<Seq<char>>,
    pub visibility: Visibility,
}

impl ClassMethodView {
    /// The method as text: `<visibility><name>(<arguments>): <type>`, with
    /// `void` when there is no return type.
    pub open spec fn text(self) -> Seq<char> {
        self.visibility.text() + self.name + "("@ + arguments_text(self.arguments) + ")"@ + ": "@
            + match self.return_type {
            Some(t) => t,
            None => "void"@,
        }
    }
}

/// A method of a class.
#[derive(Clone, Debug, PartialEq, Eq, Hash)]
pub struct ClassMethod {
    name: String,
    arguments: Vec<Argument>,
    return_type: Option<String>,
    visibility: Visibility,
}

impl View for ClassMethod {
    type V = ClassMethodView;

    closed spec fn view(&self) -> ClassMethodView {
        ClassMethodView {
            name: self.name@,
            arguments: argument_views(self.arguments@),
            return_type: crate::config::opt_view(self.return_type),
            visibility: self.visibility,
        }
    }
}

impl ClassMethod {
    /// Creates a public method with the given return type, name and
    /// arguments.
    pub fn new(return_type: &str, name: &str, arguments: Vec<Argument>) -> (r: Self)
        ensures
            r@ == (ClassMethodView {
                name: name@,
                arguments: argument_views(arguments@),
                return_type: Some(return_type@),
                visibility: Visibility::Public,
            }),
    {
        ClassMethod {
            name: name.to_owned(),
            arguments,
            return_type: Some(return_type.to_owned()),
            visibility: Visibility::Public,
        }
    }

    /// Creates a public method without return type.
    pub fn procedure(name: &str, arguments: Vec<Argument>) -> (r: Self)
        ensures
            r@ == (ClassMethodView {
                name: name@,
                arguments: argument_views(arguments@),
                return_type: None,
                visibility: Visibility::Public,
            }),
    {
        ClassMethod { name: name.to_owned(), arguments, return_type: None, visibility: Visibility::Public }
    }

    /// Sets the visibility.
    pub fn visibility(self, visibility: Visibility) -> (r: Self)
        ensures
            r@ == (ClassMethodView { visibility, ..self@ }),
    {
        ClassMethod { visibility, ..self }
    }

    /// Returns whether `other` is the same method.
    pub fn same_as(&self, other: &ClassMethod) -> (r: bool)
        ensures
            r == (self@ == other@),
    {
        if !(self.name == other.name) || self.visibility != other.visibility || !same_opt_string(
            &self.return_type,
            &other.return_type,
        ) || self.arguments.len() != other.arguments.len() {
            assert(self@.arguments.len() == self.arguments@.len());
            return false;
        }
        let mut i: usize = 0;
        while i < self.arguments.len()
            invariant
                i <= self.arguments.len(),
                self.arguments.len() == other.arguments.len(),
                forall|j: int| 0 <= j < i ==> (#[trigger] self.arguments@[j])@ == other.arguments@[j]@,
            decreases self.arguments.len() - i,
        {
            if !self.arguments[i].same_as(&other.arguments[i]) {
                assert(argument_views(self.arguments@)[i as int] != argument_views(
                    other.arguments@,
                )[i as int]);
                return false;
            }
            i = i + 1;
        }
        assert(argument_views(self.arguments@) =~= argument_views(other.arguments@));
        true
    }

    /// Appends the method as text.
    pub fn push_text(&self, out: &mut String)
        ensures
            final(out)@ == old(out)@ + self@.text(),
    {
        out.append(self.visibility.as_str());
        out.append(self.name.as_str());
        out.append("(");
        let ghost start = out@;
        let ghost all = argument_views(self.arguments@);
        let mut i: usize = 0;
        while i < self.arguments.len()
            invariant
                i <= self.arguments.len(),
                all == argument_views(self.arguments@),
                out@ == start + arguments_text(all.take(i as int)),
            decreases self.arguments.len() - i,
        {
            if i > 0 {
                out.append(", ");
            }
            self.arguments[i].push_text(out);
            assert(all.take(i + 1).drop_last() =~= all.take(i as int));
            assert(all[i as int] == self.arguments@[i as int]@);
            i = i + 1;
            assert(out@ =~= start + arguments_text(all.take(i as int)));
        }
        assert(all.take(i as int) =~= all);
        out.append(")");
        out.append(": ");
        match &self.return_type {
            Some(t) => out.append(t.as_str()),
            None => out.append("void"),
        }
        assert(final(out)@ =~= old(out)@ + self@.text());
    }

    /// Returns the method as text.
    pub fn to_string(&self) -> (r: String)
        ensures
            r@ == self@.text(),
    {
        let mut out = String::new();
        self.push_text(&mut out);
        assert(out@ =~= self@.text());
        out
    }
}

} // verus!
