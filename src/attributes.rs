//! The structural facts of an entity as its declaration gives them: the
//! arguments of its `table_name(..)` and `id(..)` attributes and its fields.
use vstd::prelude::*;
use crate::repository::{valid_facts, StructData, StructDataSpec};
use crate::text::texts;

verus! {

/// Why an entity declaration gives no statements.
#[derive(Clone, Copy, Debug, PartialEq, Eq)]
pub enum ShapeError {
    /// The declaration has no attributes: the first names the table.
    MissingTableName,
    /// The first attribute is not of the form `table_name(name)` with a non-empty name.
    MalformedTableName,
    /// The declaration has a single attribute: the last one names the id column.
    MissingId,
    /// The last attribute is not of the form `id(name)` with a non-empty name.
    MalformedId,
    /// The entity has no fields.
    NoFields,
}

/// The argument texts of a list of attributes; `None` for one that is not a list.
pub open spec fn argument_texts(attributes: Seq<Option<String>>) -> Seq<Option<Seq<char>>> {
    attributes.map_values(
        |a: Option<String>|
            match a {
                Some(s) => Some(s@),
                None => None,
            },
    )
}

/// Holds of the argument of a well-formed naming attribute.
pub open spec fn is_name(argument: Option<Seq<char>>) -> bool {
    argument is Some && argument->0.len() > 0
}

/// The facts of an entity whose attribute arguments are `attributes`, in
/// declaration order: the first attribute names the table, the last (of at
/// least two) the id column; the repository type is named after the entity
/// with `Orm` appended.
pub open spec fn shape_of(
    attributes: Seq<Option<Seq<char>>>,
    struct_name: Seq<char>,
    fields: Seq<Seq<char>>,
) -> Result<StructDataSpec, ShapeError> {
    if attributes.len() == 0 {
        Err(ShapeError::MissingTableName)
    } else if !is_name(attributes[0]) {
        Err(ShapeError::MalformedTableName)
    } else if attributes.len() == 1 {
        Err(ShapeError::MissingId)
    } else if !is_name(attributes.last()) {
        Err(ShapeError::MalformedId)
    } else if fields.len() == 0 {
        Err(ShapeError::NoFields)
    } else {
        Ok(
            StructDataSpec {
                fields,
                struct_name: struct_name + "Orm"@,
                table_name: attributes[0]->0,
                id_table: attributes.last()->0,
            },
        )
    }
}

/// Checks a named argument and copies it.
fn name_argument(argument: &Option<String>) -> (r: Option<String>)
    ensures
        is_name(
            match argument {
                Some(s) => Some(s@),
                None => None,
            },
        ) <==> r is Some,
        r matches Some(s) ==> argument matches Some(a) && s@ == a@,
{
    match argument {
        Some(a) => {
            if a.as_str().unicode_len() > 0 {
                Some(a.clone())
            } else {
                None
            }
        },
        None => None,
    }
}

/// The facts of an entity from its attribute arguments (`None` for an
/// attribute that is not a list), its name and its field names.
pub fn struct_data_from_attributes(
    attributes: Vec<Option<String>>,
    struct_name: &str,
    fields: Vec<String>,
) -> (r: Result<StructData, ShapeError>)
    requires
        fields.len() < usize::MAX,
    ensures
        match r {
            Ok(d) => shape_of(argument_texts(attributes@), struct_name@, texts(fields@)) == Ok::<
                StructDataSpec,
                ShapeError,
            >(d@) && valid_facts(d@),
            Err(e) => shape_of(argument_texts(attributes@), struct_name@, texts(fields@)) == Err::<
                StructDataSpec,
                ShapeError,
            >(e),
        },
{
    let ghost args = argument_texts(attributes@);
    if attributes.len() == 0 {
        return Err(ShapeError::MissingTableName);
    }
    let table_name = match name_argument(&attributes[0]) {
        Some(t) => t,
        None => {
            return Err(ShapeError::MalformedTableName);
        },
    };
    if attributes.len() == 1 {
        return Err(ShapeError::MissingId);
    }
    let id_table = match name_argument(&attributes[attributes.len() - 1]) {
        Some(t) => t,
        None => {
            return Err(ShapeError::MalformedId);
        },
    };
    if fields.len() == 0 {
        return Err(ShapeError::NoFields);
    }
    proof {
        reveal_strlit("Orm");
    }
    let mut name = struct_name.to_owned();
    name.append("Orm");
    let ghost f = texts(fields@);
    let d = StructData::new(fields, name, table_name, id_table);
    assert(shape_of(args, struct_name@, f) == Ok::<StructDataSpec, ShapeError>(d@));
    Ok(d)
}

/// `i` is the position of the first `c` in `s`.
pub open spec fn is_first(s: Seq<char>, c: char, i: int) -> bool {
    &&& 0 <= i < s.len()
    &&& s[i] == c
    &&& forall|j: int| 0 <= j < i ==> s[j] != c
}

/// `i` is the position of the last `c` in `s`.
pub open spec fn is_last(s: Seq<char>, c: char, i: int) -> bool {
    &&& 0 <= i < s.len()
    &&& s[i] == c
    &&& forall|j: int| i < j < s.len() ==> s[j] != c
}

/// `t` without one pair of enclosing double quotes, if it has them.
pub open spec fn unquoted(t: Seq<char>) -> Seq<char> {
    if t.len() >= 2 && t[0] == '"' && t[t.len() - 1] == '"' {
        t.subrange(1, t.len() - 1)
    } else {
        t
    }
}

/// The argument of an attribute written `name(argument)`: the text between the
/// first `(` and the last `)`, without one pair of enclosing double quotes;
/// empty where no `(` comes before a `)`.
pub open spec fn attribute_argument(s: Seq<char>) -> Seq<char> {
    if exists|o: int, c: int| is_first(s, '(', o) && is_last(s, ')', c) && o < c {
        let o = choose|o: int| is_first(s, '(', o);
        let c = choose|c: int| is_last(s, ')', c);
        unquoted(s.subrange(o + 1, c))
    } else {
        Seq::empty()
    }
}

/// The argument of an attribute written `name(argument)`, such as the table
/// name of `table_name("entity")`.
pub fn extract_string_atribute(attribute: String) -> (r: String)
    ensures
        r@ == attribute_argument(attribute@),
{
    let s = attribute.as_str();
    let ghost t = s@;
    let n = s.unicode_len();
    let mut i: usize = 0;
    while i < n && s.get_char(i) != '('
        invariant
            i <= n,
            n == t.len(),
            t == s@,
            forall|j: int| 0 <= j < i ==> t[j] != '(',
        decreases n - i,
    {
        i += 1;
    }
    let mut k: usize = n;
    while k > 0 && s.get_char(k - 1) != ')'
        invariant
            k <= n,
            n == t.len(),
            t == s@,
            forall|j: int| k <= j < n ==> t[j] != ')',
        decreases k,
    {
        k -= 1;
    }
    if i < n && k > 0 && i < k - 1 {
        proof {
            assert(is_first(t, '(', i as int));
            assert(is_last(t, ')', k - 1));
            let o = choose|o: int| is_first(t, '(', o);
            let c = choose|c: int| is_last(t, ')', c);
            assert(o == i);
            assert(c == k - 1);
        }
        let inner = s.substring_char(i + 1, k - 1);
        let m = inner.unicode_len();
        if m >= 2 && inner.get_char(0) == '"' && inner.get_char(m - 1) == '"' {
            inner.substring_char(1, m - 1).to_owned()
        } else {
            inner.to_owned()
        }
    } else {
        proof {
            assert forall|o: int, c: int| is_first(t, '(', o) && is_last(t, ')', c) implies !(o
                < c) by {
                if i < n {
                    assert(o == i);
                } 
                if k > 0 {
                    assert(c == k - 1);
                }
            }
        }
        String::new()
    }
}

} // verus!
