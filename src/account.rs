//! Account numbers, names and categories.

use crate::balance::Balance;
use crate::text::{same_text, trim, trim_end, trim_start, trimmed};
use vstd::prelude::*;
use vstd::string::*;

verus! {

/// An account number to identify an account: a strictly positive integer.
#[derive(Debug, Clone, Copy, PartialEq, Eq, Structural, PartialOrd, Ord, Hash)]
pub struct Number(pub(crate) u32);

impl Number {
    /// The number as a plain integer.
    pub open(crate) spec fn value(self) -> u32 {
        self.0
    }

    /// A number is never zero.
    #[verifier::type_invariant]
    pub open(crate) spec fn wf(self) -> bool {
        self.0 != 0
    }

    /// Create a new [Number] from a positive integer; zero is refused.
    pub fn new(value: u32) -> (r: Option<Number>)
        ensures
            value == 0 ==> r.is_none(),
            value != 0 ==> r.is_some(),
            r matches Some(n) ==> n.wf() && n.value() == value,
    {
        if value == 0 {
            None
        } else {
            Some(Number(value))
        }
    }

    pub fn number(&self) -> (r: u32)
        ensures
            r == self.value(),
            r > 0,
    {
        proof {
            use_type_invariant(self);
        }
        self.0
    }
}

/// An account name: a non-empty string without leading or trailing white space.
#[derive(Debug, PartialEq, Eq, PartialOrd, Ord, Hash)]
pub struct Name(pub(crate) String);

impl View for Name {
    type V = Seq<char>;

    closed spec fn view(&self) -> Seq<char> {
        self.0@
    }
}

impl Clone for Name {
    fn clone(&self) -> (r: Self)
        ensures
            r == *self,
    {
        Name(self.0.clone())
    }
}

impl Name {
    /// Create a new name from `name` with its white space trimmed; a name that
    /// is empty after trimming is refused.
    pub fn new(name: &str) -> (r: Option<Name>)
        ensures
            r is Some <==> trimmed(name@).len() > 0,
            r matches Some(n) ==> n@ == trimmed(name@),
    {
        let t = trim(name);
        if t.is_empty() {
            None
        } else {
            Some(Name(t.to_owned()))
        }
    }

    /// Move the inner string out of the name.
    pub fn into_inner(self) -> (r: String)
        ensures
            r@ == self@,
    {
        self.0
    }

    pub fn as_str(&self) -> (r: &str)
        ensures
            r@ == self@,
    {
        self.0.as_str()
    }

    pub fn name(&self) -> (r: &str)
        ensures
            r@ == self@,
    {
        self.0.as_str()
    }
}

/// These are the different types an account can be associated with.
#[derive(Debug, Clone, Copy, PartialEq, Eq, Structural, PartialOrd, Ord, Hash)]
pub enum Category {
    Asset,
    Liability,
    Equity,
    Income,
    Expenses,
}

/// The error of parsing a [Category] from text.
#[derive(Debug, Clone, Copy, PartialEq, Eq)]
pub struct ParseError;

impl ParseError {
    pub fn message(&self) -> (r: String)
        ensures
            r@ == "Unable to parse category"@,
    {
        String::from_str("Unable to parse category")
    }
}

/// The written name of each category.
pub open spec fn category_name(c: Category) -> Seq<char> {
    match c {
        Category::Asset => "Asset"@,
        Category::Liability => "Liability"@,
        Category::Equity => "Equity"@,
        Category::Income => "Income"@,
        Category::Expenses => "Expenses"@,
    }
}

/// The category whose name is `t`, if any.
pub open spec fn category_of_name(t: Seq<char>) -> Result<Category, ParseError> {
    if t == "Asset"@ {
        Ok(Category::Asset)
    } else if t == "Liability"@ {
        Ok(Category::Liability)
    } else if t == "Equity"@ {
        Ok(Category::Equity)
    } else if t == "Income"@ {
        Ok(Category::Income)
    } else if t == "Expenses"@ {
        Ok(Category::Expenses)
    } else {
        Err(ParseError)
    }
}

impl Category {
    /// Asset and Expenses increase on debit; Liability, Equity and Income
    /// increase on credit.
    pub open spec fn increases_on_debit(self) -> bool {
        self is Asset || self is Expenses
    }

    /// The categories that increase on debit: Asset and Expenses.
    pub fn debits() -> (r: DebitIter)
        ensures
            r@ == seq![Category::Asset, Category::Expenses],
    {
        DebitIter { debits: vec![Category::Asset, Category::Expenses] }
    }

    /// The categories that increase on credit: Liability, Equity and Income.
    pub fn credits() -> (r: CreditIter)
        ensures
            r@ == seq![Category::Liability, Category::Equity, Category::Income],
    {
        CreditIter { credits: vec![Category::Liability, Category::Equity, Category::Income] }
    }

    /// Create a balance that increases this category by `amount`; a zero
    /// amount is refused.
    pub fn increase(&self, amount: u32) -> (r: Option<Balance>)
        ensures
            r is Some <==> amount != 0,
            r matches Some(b) ==> b.spec_amount() == amount && (b is Debit
                <==> self.increases_on_debit()),
    {
        match self {
            Category::Asset => Balance::debit(amount),
            Category::Liability => Balance::credit(amount),
            Category::Equity => Balance::credit(amount),
            Category::Income => Balance::credit(amount),
            Category::Expenses => Balance::debit(amount),
        }
    }

    /// The name of the category.
    pub fn to_string(&self) -> (r: String)
        ensures
            r@ == category_name(*self),
    {
        match self {
            Category::Asset => String::from_str("Asset"),
            Category::Liability => String::from_str("Liability"),
            Category::Equity => String::from_str("Equity"),
            Category::Income => String::from_str("Income"),
            Category::Expenses => String::from_str("Expenses"),
        }
    }

    /// Parse a category from its name, ignoring surrounding white space.
    pub fn parse(s: &str) -> (r: Result<Category, ParseError>)
        ensures
            r == category_of_name(trimmed(s@)),
    {
        let t = trim(s);
        if same_text(t, "Asset") {
            Ok(Category::Asset)
        } else if same_text(t, "Liability") {
            Ok(Category::Liability)
        } else if same_text(t, "Equity") {
            Ok(Category::Equity)
        } else if same_text(t, "Income") {
            Ok(Category::Income)
        } else if same_text(t, "Expenses") {
            Ok(Category::Expenses)
        } else {
            Err(ParseError)
        }
    }
}

impl core::str::FromStr for Category {
    type Err = ParseError;

    fn from_str(s: &str) -> Result<Self, Self::Err> {
        Category::parse(s)
    }
}

/// Every category's name parses back to that category.
pub proof fn lemma_parse_name(c: Category)
    ensures
        category_of_name(trimmed(category_name(c))) == Ok::<Category, ParseError>(c),
{
    reveal_strlit("Asset");
    reveal_strlit("Liability");
    reveal_strlit("Equity");
    reveal_strlit("Income");
    reveal_strlit("Expenses");
    let n = category_name(c);
    assert(trim_start(n) == n);
    assert(trim_end(n) == n);
}

/// The categories that increase on debit.
pub struct DebitIter {
    debits: Vec<Category>,
}

/// The categories that increase on credit.
pub struct CreditIter {
    credits: Vec<Category>,
}

impl View for DebitIter {
    type V = Seq<Category>;

    closed spec fn view(&self) -> Seq<Category> {
        self.debits@
    }
}

impl View for CreditIter {
    type V = Seq<Category>;

    closed spec fn view(&self) -> Seq<Category> {
        self.credits@
    }
}

impl IntoIterator for DebitIter {
    type Item = Category;
    type IntoIter = std::vec::IntoIter<Category>;

    fn into_iter(self) -> Self::IntoIter {
        self.debits.into_iter()
    }
}

impl IntoIterator for CreditIter {
    type Item = Category;
    type IntoIter = std::vec::IntoIter<Category>;

    fn into_iter(self) -> Self::IntoIter {
        self.credits.into_iter()
    }
}

} // verus!
