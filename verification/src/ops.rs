//! The filter operations a field can be allowed to take part in.

use vstd::prelude::*;

use crate::text::same_text;

verus! {

/// One of the eleven comparison, membership and range operations.
#[derive(Clone, Copy, Debug, PartialEq, Eq, Structural, Hash)]
pub enum OpKind {
    Eq,
    Ne,
    Lt,
    Lte,
    Gt,
    Gte,
    Like,
    Ilike,
    In,
    NotIn,
    Between,
}

/// What an operation stores: one value, a list of values, or a pair.
#[derive(Clone, Copy, Debug, PartialEq, Eq, Structural, Hash)]
pub enum ValueShape {
    Scalar,
    List,
    Pair,
}

impl OpKind {
    /// The word that names the operation in a permission list.
    pub open spec fn token(self) -> Seq<char> {
        match self {
            OpKind::Eq => "eq"@,
            OpKind::Ne => "ne"@,
            OpKind::Lt => "lt"@,
            OpKind::Lte => "lte"@,
            OpKind::Gt => "gt"@,
            OpKind::Gte => "gte"@,
            OpKind::Like => "like"@,
            OpKind::Ilike => "ilike"@,
            OpKind::In => "in"@,
            OpKind::NotIn => "not_in"@,
            OpKind::Between => "between"@,
        }
    }

    /// The operation that a word names, if it names one.
    pub open spec fn from_token(word: Seq<char>) -> Option<OpKind> {
        if word == "eq"@ {
            Some(OpKind::Eq)
        } else if word == "ne"@ {
            Some(OpKind::Ne)
        } else if word == "lt"@ {
            Some(OpKind::Lt)
        } else if word == "lte"@ {
            Some(OpKind::Lte)
        } else if word == "gt"@ {
            Some(OpKind::Gt)
        } else if word == "gte"@ {
            Some(OpKind::Gte)
        } else if word == "like"@ {
            Some(OpKind::Like)
        } else if word == "ilike"@ {
            Some(OpKind::Ilike)
        } else if word == "in"@ {
            Some(OpKind::In)
        } else if word == "not_in"@ {
            Some(OpKind::NotIn)
        } else if word == "between"@ {
            Some(OpKind::Between)
        } else {
            None
        }
    }

    /// The shape of the value the operation stores.
    pub open spec fn shape(self) -> ValueShape {
        match self {
            OpKind::In | OpKind::NotIn => ValueShape::List,
            OpKind::Between => ValueShape::Pair,
            _ => ValueShape::Scalar,
        }
    }

    /// How many arguments the fluent method of the operation takes.
    pub open spec fn arity(self) -> nat {
        match self {
            OpKind::Between => 2,
            _ => 1,
        }
    }

    /// The word that names the operation.
    pub fn as_str(self) -> (word: &'static str)
        ensures
            word@ == self.token(),
    {
        match self {
            OpKind::Eq => "eq",
            OpKind::Ne => "ne",
            OpKind::Lt => "lt",
            OpKind::Lte => "lte",
            OpKind::Gt => "gt",
            OpKind::Gte => "gte",
            OpKind::Like => "like",
            OpKind::Ilike => "ilike",
            OpKind::In => "in",
            OpKind::NotIn => "not_in",
            OpKind::Between => "between",
        }
    }

    /// Reads an operation word. An unknown word gives `None`.
    pub fn parse(word: &str) -> (op: Option<OpKind>)
        ensures
            op == OpKind::from_token(word@),
    {
        if same_text(word, "eq") {
            Some(OpKind::Eq)
        } else if same_text(word, "ne") {
            Some(OpKind::Ne)
        } else if same_text(word, "lt") {
            Some(OpKind::Lt)
        } else if same_text(word, "lte") {
            Some(OpKind::Lte)
        } else if same_text(word, "gt") {
            Some(OpKind::Gt)
        } else if same_text(word, "gte") {
            Some(OpKind::Gte)
        } else if same_text(word, "like") {
            Some(OpKind::Like)
        } else if same_text(word, "ilike") {
            Some(OpKind::Ilike)
        } else if same_text(word, "in") {
            Some(OpKind::In)
        } else if same_text(word, "not_in") {
            Some(OpKind::NotIn)
        } else if same_text(word, "between") {
            Some(OpKind::Between)
        } else {
            None
        }
    }

    /// The shape of the value the operation stores.
    pub fn value_shape(self) -> (shape: ValueShape)
        ensures
            shape == self.shape(),
    {
        match self {
            OpKind::In | OpKind::NotIn => ValueShape::List,
            OpKind::Between => ValueShape::Pair,
            _ => ValueShape::Scalar,
        }
    }

    /// How many arguments the fluent method of the operation takes.
    pub fn method_arity(self) -> (n: usize)
        ensures
            n == self.arity(),
    {
        match self {
            OpKind::Between => 2,
            _ => 1,
        }
    }
}

/// Every operation is read back from its own word.
pub proof fn law_operation_is_read_from_its_word(op: OpKind)
    ensures
        OpKind::from_token(op.token()) == Some(op),
{
    reveal_strlit("eq");
    reveal_strlit("ne");
    reveal_strlit("lt");
    reveal_strlit("lte");
    reveal_strlit("gt");
    reveal_strlit("gte");
    reveal_strlit("like");
    reveal_strlit("ilike");
    reveal_strlit("in");
    reveal_strlit("not_in");
    reveal_strlit("between");
    assert("eq"@[0] == 'e' && "eq"@[1] == 'q');
    assert("ne"@[0] == 'n' && "ne"@[1] == 'e');
    assert("lt"@[0] == 'l' && "lt"@[1] == 't');
    assert("gt"@[0] == 'g' && "gt"@[1] == 't');
    assert("in"@[0] == 'i' && "in"@[1] == 'n');
    assert("lte"@[0] == 'l' && "lte"@.len() == 3);
    assert("gte"@[0] == 'g' && "gte"@.len() == 3);
    assert("like"@.len() == 4);
    assert("ilike"@.len() == 5);
    assert("not_in"@.len() == 6);
    assert("between"@.len() == 7);
}

/// A word names at most one operation: the one whose word it is.
pub proof fn law_word_names_one_operation(word: Seq<char>)
    ensures
        OpKind::from_token(word) matches Some(op) ==> op.token() == word,
{
}

} // verus!
