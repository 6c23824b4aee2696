//! Field values and records: what a row of a table, a cached hash object or a
//! member of a sorted set holds, as plain data.

use crate::text::{double_quotes, doubled_quotes, int_digits, push_i64, same_text, slices, texts};
use vstd::prelude::*;

verus! {

/// One field's value. Whatever is neither null, a truth value, a 64-bit
/// integer nor a string is carried as its compact JSON text.
#[derive(Debug, PartialEq, Eq)]
pub enum Value {
    Null,
    Bool(bool),
    Int(i64),
    Text(String),
    Json(String),
}

/// A `Value` as contracts see it.
pub enum ValueView {
    Null,
    Bool(bool),
    Int(i64),
    Text(Seq<char>),
    Json(Seq<char>),
}

impl View for Value {
    type V = ValueView;

    open spec fn view(&self) -> ValueView {
        match self {
            Value::Null => ValueView::Null,
            Value::Bool(b) => ValueView::Bool(*b),
            Value::Int(i) => ValueView::Int(*i),
            Value::Text(s) => ValueView::Text(s@),
            Value::Json(s) => ValueView::Json(s@),
        }
    }
}

/// A value written out plainly: `null`, `true`, `false`, the decimal digits
/// of an integer, the characters of a string, or the JSON text as it is.
pub open spec fn plain_text(v: ValueView) -> Seq<char> {
    match v {
        ValueView::Null => "null"@,
        ValueView::Bool(b) => if b {
            "true"@
        } else {
            "false"@
        },
        ValueView::Int(i) => int_digits(i as int),
        ValueView::Text(s) => s,
        ValueView::Json(s) => s,
    }
}

/// A value as a quoted SQL literal. Only a string has its quotes doubled.
pub open spec fn sql_literal(v: ValueView) -> Seq<char> {
    match v {
        ValueView::Text(s) => seq!['\''] + doubled_quotes(s) + seq!['\''],
        _ => seq!['\''] + plain_text(v) + seq!['\''],
    }
}

impl Clone for Value {
    fn clone(&self) -> (r: Self)
        ensures
            r@ == self@,
    {
        match self {
            Value::Null => Value::Null,
            Value::Bool(b) => Value::Bool(*b),
            Value::Int(i) => Value::Int(*i),
            Value::Text(s) => Value::Text(s.clone()),
            Value::Json(s) => Value::Json(s.clone()),
        }
    }
}

impl Value {
    /// A string value holding the characters of `s`.
    pub fn text(s: &str) -> (v: Self)
        ensures
            v@ == ValueView::Text(s@),
    {
        Value::Text(s.to_owned())
    }

    /// A value carried as JSON text.
    pub fn json(s: &str) -> (v: Self)
        ensures
            v@ == ValueView::Json(s@),
    {
        Value::Json(s.to_owned())
    }

    pub fn is_null(&self) -> (r: bool)
        ensures
            r == (self@ is Null),
    {
        match self {
            Value::Null => true,
            _ => false,
        }
    }

    /// The integer, if this is one.
    pub fn as_i64(&self) -> (r: Option<i64>)
        ensures
            r == match self@ {
                ValueView::Int(i) => Some(i),
                _ => None,
            },
    {
        match self {
            Value::Int(i) => Some(*i),
            _ => None,
        }
    }

    /// The truth value, if this is one.
    pub fn as_bool(&self) -> (r: Option<bool>)
        ensures
            r == match self@ {
                ValueView::Bool(b) => Some(b),
                _ => None,
            },
    {
        match self {
            Value::Bool(b) => Some(*b),
            _ => None,
        }
    }

    /// The characters, if this is a string.
    pub fn as_str(&self) -> (r: Option<&str>)
        ensures
            match self@ {
                ValueView::Text(s) => r is Some && r.unwrap()@ == s,
                _ => r is None,
            },
    {
        match self {
            Value::Text(s) => Some(s.as_str()),
            _ => None,
        }
    }

    /// Appends the value, written out plainly, to `out`.
    pub fn push_plain(&self, out: &mut String)
        ensures
            final(out)@ == old(out)@ + plain_text(self@),
    {
        match self {
            Value::Null => out.append("null"),
            Value::Bool(b) => {
                if *b {
                    out.append("true")
                } else {
                    out.append("false")
                }
            },
            Value::Int(i) => push_i64(out, *i),
            Value::Text(s) => out.append(s.as_str()),
            Value::Json(s) => out.append(s.as_str()),
        }
    }

    /// Appends the value as a quoted SQL literal to `out`.
    pub fn push_sql(&self, out: &mut String)
        ensures
            final(out)@ == old(out)@ + sql_literal(self@),
    {
        out.push('\'');
        match self {
            Value::Text(s) => {
                let doubled = double_quotes(s.as_str());
                out.append(doubled.as_str());
            },
            _ => {
                self.push_plain(out);
            },
        }
        out.push('\'');
        assert(final(out)@ =~= old(out)@ + sql_literal(self@));
    }

    /// The value as a quoted SQL literal.
    pub fn to_sql(&self) -> (s: String)
        ensures
            s@ == sql_literal(self@),
    {
        let mut s = String::new();
        self.push_sql(&mut s);
        assert(s@ =~= sql_literal(self@));
        s
    }
}

/// A named value.
#[derive(Debug, PartialEq, Eq)]
pub struct Field {
    pub name: String,
    pub value: Value,
}

/// The fields that a sequence of named values stands for: where a name
/// occurs more than once, the last occurrence counts.
pub open spec fn map_of(e: Seq<(Seq<char>, ValueView)>) -> Map<Seq<char>, ValueView>
    decreases e.len(),
{
    if e.len() == 0 {
        Map::empty()
    } else {
        map_of(e.drop_last()).insert(e.last().0, e.last().1)
    }
}

/// Whether no name occurs twice in `e`.
pub open spec fn distinct_names(e: Seq<(Seq<char>, ValueView)>) -> bool {
    forall|i: int, j: int| 0 <= i < j < e.len() ==> (#[trigger] e[i]).0 != (#[trigger] e[j]).0
}

/// Whether some entry of `e` is named `name`.
pub open spec fn names(e: Seq<(Seq<char>, ValueView)>, name: Seq<char>) -> bool {
    exists|i: int| 0 <= i < e.len() && (#[trigger] e[i]).0 == name
}

pub proof fn lemma_map_of_push(e: Seq<(Seq<char>, ValueView)>, x: (Seq<char>, ValueView))
    ensures
        map_of(e.push(x)) == map_of(e).insert(x.0, x.1),
{
    assert(e.push(x).drop_last() =~= e);
}

/// The names in the map are the names in the sequence.
pub proof fn lemma_map_of_dom(e: Seq<(Seq<char>, ValueView)>, name: Seq<char>)
    ensures
        map_of(e).contains_key(name) <==> names(e, name),
        map_of(e).dom().finite(),
    decreases e.len(),
{
    if e.len() > 0 {
        lemma_map_of_dom(e.drop_last(), name);
        if names(e, name) {
            let i = choose|i: int| 0 <= i < e.len() && (#[trigger] e[i]).0 == name;
            if i < e.len() - 1 {
                assert(e.drop_last()[i] == e[i]);
            }
        }
        if names(e.drop_last(), name) {
            let i = choose|i: int| 0 <= i < e.len() - 1 && (#[trigger] e.drop_last()[i]).0 == name;
            assert(e[i] == e.drop_last()[i]);
        }
        if e.last().0 == name {
            assert(e[e.len() - 1].0 == name);
        }
    }
}

/// An entry after which the name does not occur again gives the name's value.
pub proof fn lemma_map_of_last_occurrence(e: Seq<(Seq<char>, ValueView)>, i: int)
    requires
        0 <= i < e.len(),
        forall|k: int| i < k < e.len() ==> (#[trigger] e[k]).0 != e[i].0,
    ensures
        map_of(e).contains_key(e[i].0),
        map_of(e)[e[i].0] == e[i].1,
    decreases e.len(),
{
    if i < e.len() - 1 {
        assert(e[e.len() - 1].0 != e[i].0);
        assert(e.drop_last()[i] == e[i]);
        assert forall|k: int| i < k < e.drop_last().len() implies (#[trigger] e.drop_last()[k]).0
            != e.drop_last()[i].0 by {
            assert(e.drop_last()[k] == e[k]);
        }
        lemma_map_of_last_occurrence(e.drop_last(), i);
    }
}

/// Replacing the value of a name's only occurrence updates the map at that
/// name and nowhere else.
pub proof fn lemma_map_of_update(e: Seq<(Seq<char>, ValueView)>, i: int, v: ValueView)
    requires
        0 <= i < e.len(),
        forall|k: int| i < k < e.len() ==> (#[trigger] e[k]).0 != e[i].0,
    ensures
        map_of(e.update(i, (e[i].0, v))) == map_of(e).insert(e[i].0, v),
    decreases e.len(),
{
    let name = e[i].0;
    let e2 = e.update(i, (name, v));
    if i == e.len() - 1 {
        assert(e2.drop_last() =~= e.drop_last());
        assert(map_of(e2) =~= map_of(e).insert(name, v));
    } else {
        assert(e[e.len() - 1].0 != name);
        assert(e.drop_last()[i] == e[i]);
        assert forall|k: int| i < k < e.drop_last().len() implies (#[trigger] e.drop_last()[k]).0
            != e.drop_last()[i].0 by {
            assert(e.drop_last()[k] == e[k]);
        }
        lemma_map_of_update(e.drop_last(), i, v);
        assert(e2.drop_last() =~= e.drop_last().update(i, (name, v)));
        assert(e2.last() == e.last());
        assert(map_of(e2) =~= map_of(e).insert(name, v));
    }
}

/// Leaving out every entry of a name removes the name from the map and
/// nothing else.
pub proof fn lemma_map_of_without(e: Seq<(Seq<char>, ValueView)>, name: Seq<char>)
    ensures
        map_of(without(e, name)) == map_of(e).remove(name),
        distinct_names(e) ==> distinct_names(without(e, name)),
        forall|n: Seq<char>| names(without(e, name), n) ==> names(e, n),
    decreases e.len(),
{
    if e.len() > 0 {
        lemma_map_of_without(e.drop_last(), name);
        let w = without(e, name);
        if e.last().0 == name {
            assert(map_of(w) =~= map_of(e).remove(name));
        } else {
            lemma_map_of_push(without(e.drop_last(), name), e.last());
            assert(map_of(w) =~= map_of(e).remove(name));
        }
        assert forall|n: Seq<char>| names(w, n) implies names(e, n) by {
            let i = choose|i: int| 0 <= i < w.len() && (#[trigger] w[i]).0 == n;
            let d = without(e.drop_last(), name);
            if e.last().0 != name && i == w.len() - 1 {
                assert(w[i] == e.last());
                assert(e[e.len() - 1].0 == n);
            } else {
                assert(d[i] == w[i]);
                assert(names(d, n));
                assert(names(e.drop_last(), n));
                let j = choose|j: int| 0 <= j < e.len() - 1 && (#[trigger] e.drop_last()[j]).0 == n;
                assert(e[j] == e.drop_last()[j]);
            }
        }
        if distinct_names(e) {
            assert forall|i: int, j: int| 0 <= i < j < e.drop_last().len() implies (
            #[trigger] e.drop_last()[i]).0 != (#[trigger] e.drop_last()[j]).0 by {
                assert(e.drop_last()[i] == e[i]);
                assert(e.drop_last()[j] == e[j]);
            }
            if e.last().0 != name {
                let d = without(e.drop_last(), name);
                assert forall|i: int, j: int| 0 <= i < j < w.len() implies (#[trigger] w[i]).0 != (
                #[trigger] w[j]).0 by {
                    if j == w.len() - 1 {
                        assert(w[i] == d[i]);
                        assert(names(d, w[i].0));
                        assert(names(e.drop_last(), w[i].0));
                        let k = choose|k: int|
                            0 <= k < e.len() - 1 && (#[trigger] e.drop_last()[k]).0 == w[i].0;
                        assert(e[k] == e.drop_last()[k]);
                        assert(e[k].0 != e[e.len() - 1].0);
                    } else {
                        assert(w[i] == d[i]);
                        assert(w[j] == d[j]);
                    }
                }
            }
        }
    }
}

/// `e` without the entries named `name`.
pub open spec fn without(e: Seq<(Seq<char>, ValueView)>, name: Seq<char>) -> Seq<
    (Seq<char>, ValueView),
>
    decreases e.len(),
{
    if e.len() == 0 {
        e
    } else if e.last().0 == name {
        without(e.drop_last(), name)
    } else {
        without(e.drop_last(), name).push(e.last())
    }
}

/// The fields `names` of a record; one that is not there reads as null.
pub open spec fn pick(fields: Map<Seq<char>, ValueView>, names: Seq<Seq<char>>) -> Map<
    Seq<char>,
    ValueView,
> {
    Map::new(
        |n: Seq<char>| names.contains(n),
        |n: Seq<char>|
            if fields.contains_key(n) {
                fields[n]
            } else {
                ValueView::Null
            },
    )
}

proof fn lemma_pick_push(fields: Map<Seq<char>, ValueView>, names: Seq<Seq<char>>, name: Seq<char>)
    ensures
        pick(fields, names.push(name)) == pick(fields, names).insert(
            name,
            if fields.contains_key(name) {
                fields[name]
            } else {
                ValueView::Null
            },
        ),
{
    let grown = names.push(name);
    assert forall|n: Seq<char>| grown.contains(n) == (names.contains(n) || n == name) by {
        if names.contains(n) {
            let i = choose|i: int| 0 <= i < names.len() && names[i] == n;
            assert(grown[i] == n);
        }
        if n == name {
            assert(grown[names.len() as int] == n);
        }
    }
    assert(pick(fields, grown) =~= pick(fields, names).insert(
        name,
        if fields.contains_key(name) {
            fields[name]
        } else {
            ValueView::Null
        },
    ));
}

/// An ordered collection of named values, such as the columns of a row.
/// Built through `new` and `insert` no name occurs twice; the order is that
/// in which the names were first inserted.
#[derive(Debug, PartialEq, Eq)]
pub struct Record {
    entries: Vec<Field>,
}

impl View for Record {
    type V = Map<Seq<char>, ValueView>;

    /// The fields by name.
    open spec fn view(&self) -> Map<Seq<char>, ValueView> {
        map_of(self.entries())
    }
}

impl Record {
    /// The fields in order.
    pub closed spec fn entries(&self) -> Seq<(Seq<char>, ValueView)> {
        Seq::new(self.entries@.len(), |i: int| (self.entries@[i].name@, self.entries@[i].value@))
    }

    /// Whether no name occurs twice.
    pub open spec fn distinct(&self) -> bool {
        distinct_names(self.entries())
    }

    pub fn new() -> (r: Self)
        ensures
            r.entries() == Seq::<(Seq<char>, ValueView)>::empty(),
            r@ == Map::<Seq<char>, ValueView>::empty(),
            r.distinct(),
    {
        let r = Record { entries: Vec::new() };
        assert(r.entries() =~= Seq::<(Seq<char>, ValueView)>::empty());
        r
    }

    pub fn len(&self) -> (n: usize)
        ensures
            n == self.entries().len(),
    {
        self.entries.len()
    }

    pub fn is_empty(&self) -> (b: bool)
        ensures
            b == (self.entries().len() == 0),
            b == (self@ == Map::<Seq<char>, ValueView>::empty()),
    {
        proof {
            if self.entries().len() > 0 {
                assert(map_of(self.entries()).contains_key(self.entries().last().0));
            }
        }
        self.entries.len() == 0
    }

    /// The name of the entry at position `i`.
    pub fn name_at(&self, i: usize) -> (s: &str)
        requires
            i < self.entries().len(),
        ensures
            s@ == self.entries()[i as int].0,
    {
        self.entries[i].name.as_str()
    }

    /// The value of the entry at position `i`.
    pub fn value_at(&self, i: usize) -> (v: &Value)
        requires
            i < self.entries().len(),
        ensures
            v@ == self.entries()[i as int].1,
    {
        &self.entries[i].value
    }

    /// The position of the last entry named `name`.
    fn position(&self, name: &str) -> (r: Option<usize>)
        ensures
            match r {
                Some(i) => i < self.entries().len() && self.entries()[i as int].0 == name@
                    && forall|k: int|
                    i < k < self.entries().len() ==> (#[trigger] self.entries()[k]).0 != name@,
                None => !names(self.entries(), name@),
            },
    {
        let mut i: usize = self.entries.len();
        while i > 0
            invariant
                i <= self.entries.len(),
                self.entries().len() == self.entries.len(),
                forall|k: int|
                    i <= k < self.entries().len() ==> (#[trigger] self.entries()[k]).0 != name@,
            decreases i,
        {
            i -= 1;
            if same_text(self.entries[i].name.as_str(), name) {
                return Some(i);
            }
        }
        None
    }

    pub fn contains_key(&self, name: &str) -> (b: bool)
        ensures
            b == self@.contains_key(name@),
    {
        proof {
            lemma_map_of_dom(self.entries(), name@);
        }
        self.position(name).is_some()
    }

    /// The value of the field `name`, if there is one.
    pub fn get(&self, name: &str) -> (r: Option<&Value>)
        ensures
            r is Some == self@.contains_key(name@),
            r is Some ==> r.unwrap()@ == self@[name@],
    {
        proof {
            lemma_map_of_dom(self.entries(), name@);
        }
        match self.position(name) {
            Some(i) => {
                proof {
                    lemma_map_of_last_occurrence(self.entries(), i as int);
                }
                Some(&self.entries[i].value)
            },
            None => None,
        }
    }

    /// Sets the field `name` to `value`: in place where the name is there
    /// already, at the end otherwise.
    pub fn insert(&mut self, name: &str, value: Value)
        ensures
            final(self)@ == old(self)@.insert(name@, value@),
            old(self).distinct() ==> final(self).distinct(),
            !old(self)@.contains_key(name@) ==> final(self).entries() == old(self).entries().push(
                (name@, value@),
            ),
            old(self)@.contains_key(name@) ==> final(self).entries().len() == old(
                self,
            ).entries().len(),
    {
        proof {
            lemma_map_of_dom(self.entries(), name@);
        }
        match self.position(name) {
            Some(i) => {
                let ghost before = self.entries();
                self.entries[i].value = value;
                proof {
                    assert(self.entries() =~= before.update(i as int, (before[i as int].0, value@)));
                    lemma_map_of_update(before, i as int, value@);
                }
            },
            None => {
                let ghost before = self.entries();
                self.entries.push(Field { name: name.to_owned(), value });
                proof {
                    assert(self.entries() =~= before.push((name@, value@)));
                    lemma_map_of_push(before, (name@, value@));
                    if distinct_names(before) {
                        assert forall|i: int, j: int|
                            0 <= i < j < self.entries().len() implies (#[trigger] self.entries()[i]).0
                            != (#[trigger] self.entries()[j]).0 by {
                            assert(self.entries()[i] == before[i]);
                            if j < before.len() {
                                assert(self.entries()[j] == before[j]);
                            }
                        }
                    }
                }
            },
        }
    }

    /// Takes the field `name` out, and gives the value it had.
    pub fn remove(&mut self, name: &str) -> (r: Option<Value>)
        ensures
            final(self)@ == old(self)@.remove(name@),
            final(self).entries() == without(old(self).entries(), name@),
            old(self).distinct() ==> final(self).distinct(),
            r is Some == old(self)@.contains_key(name@),
            r is Some ==> r.unwrap()@ == old(self)@[name@],
    {
        let ghost before = self.entries();
        let mut kept: Vec<Field> = Vec::new();
        let mut found: Option<Value> = None;
        let mut rest: Vec<Field> = Vec::new();
        core::mem::swap(&mut rest, &mut self.entries);
        let n = rest.len();
        let mut i: usize = 0;
        while i < n
            invariant
                i <= n,
                n == rest.len(),
                before.len() == n,
                forall|k: int| 0 <= k < n ==> before[k] == (rest@[k].name@, (#[trigger] rest@[k]).value@),
                (Record { entries: kept }).entries() == without(before.take(i as int), name@),
                found is Some == names(before.take(i as int), name@),
                found is Some ==> found.unwrap()@ == map_of(before.take(i as int))[name@],
            decreases n - i,
        {
            let ghost prefix = before.take(i as int);
            let ghost kept_before = (Record { entries: kept }).entries();
            proof {
                assert(before.take(i + 1).drop_last() =~= prefix);
                assert(before.take(i + 1).last() == before[i as int]);
                lemma_map_of_dom(prefix, name@);
                lemma_map_of_dom(before.take(i + 1), name@);
            }
            let f = &rest[i];
            if same_text(f.name.as_str(), name) {
                found = Some(f.value.clone());
            } else {
                kept.push(Field { name: f.name.clone(), value: f.value.clone() });
                proof {
                    assert((Record { entries: kept }).entries() =~= kept_before.push(before[i as int]));
                }
            }
            i += 1;
        }
        proof {
            assert(before.take(n as int) =~= before);
            lemma_map_of_without(before, name@);
            lemma_map_of_dom(before, name@);
        }
        self.entries = kept;
        found
    }

    /// The value of the field `name`; null where the field is not there.
    fn read(&self, name: &str) -> (v: Value)
        ensures
            v@ == if self@.contains_key(name@) {
                self@[name@]
            } else {
                ValueView::Null
            },
    {
        match self.get(name) {
            Some(v) => v.clone(),
            None => Value::Null,
        }
    }

    /// The fields `names` of the record, in their order; one that is not
    /// there reads as null.
    pub fn project(&self, names: &Vec<String>) -> (r: Self)
        ensures
            r@ == pick(self@, texts(names@)),
    {
        let ghost all = texts(names@);
        let mut r = Record::new();
        let mut i: usize = 0;
        assert(r@ =~= pick(self@, all.take(0)));
        while i < names.len()
            invariant
                i <= names.len(),
                all == texts(names@),
                r@ == pick(self@, all.take(i as int)),
            decreases names.len() - i,
        {
            proof {
                assert(all.take(i + 1) =~= all.take(i as int).push(names@[i as int]@));
                lemma_pick_push(self@, all.take(i as int), names@[i as int]@);
            }
            let v = self.read(names[i].as_str());
            r.insert(names[i].as_str(), v);
            i += 1;
        }
        assert(all.take(names.len() as int) =~= all);
        r
    }

    /// The fields `names` of the record, in their order; one that is not
    /// there reads as null.
    pub fn project_slices(&self, names: &Vec<&'static str>) -> (r: Self)
        ensures
            r@ == pick(self@, slices(names@)),
    {
        let ghost all = slices(names@);
        let mut r = Record::new();
        let mut i: usize = 0;
        assert(r@ =~= pick(self@, all.take(0)));
        while i < names.len()
            invariant
                i <= names.len(),
                all == slices(names@),
                r@ == pick(self@, all.take(i as int)),
            decreases names.len() - i,
        {
            proof {
                assert(all.take(i + 1) =~= all.take(i as int).push(names@[i as int]@));
                lemma_pick_push(self@, all.take(i as int), names@[i as int]@);
            }
            let v = self.read(names[i]);
            r.insert(names[i], v);
            i += 1;
        }
        assert(all.take(names.len() as int) =~= all);
        r
    }

    /// A copy of the record.
    pub fn duplicate(&self) -> (r: Self)
        ensures
            r.entries() == self.entries(),
            r@ == self@,
    {
        let mut entries: Vec<Field> = Vec::new();
        let mut i: usize = 0;
        while i < self.entries.len()
            invariant
                i <= self.entries.len(),
                (Record { entries }).entries() == self.entries().take(i as int),
            decreases self.entries.len() - i,
        {
            let ghost so_far = (Record { entries }).entries();
            let f = &self.entries[i];
            entries.push(Field { name: f.name.clone(), value: f.value.clone() });
            proof {
                assert((Record { entries }).entries() =~= so_far.push(self.entries()[i as int]));
                assert(self.entries().take(i + 1) =~= self.entries().take(i as int).push(
                    self.entries()[i as int],
                ));
            }
            i += 1;
        }
        proof {
            assert(self.entries().take(self.entries.len() as int) =~= self.entries());
        }
        Record { entries }
    }
}

impl Clone for Record {
    fn clone(&self) -> (r: Self)
        ensures
            r.entries() == self.entries(),
            r@ == self@,
    {
        self.duplicate()
    }
}

} // verus!
