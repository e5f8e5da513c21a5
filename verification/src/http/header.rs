//! The header fields of an HTTP message.

use vstd::prelude::*;
use vstd::string::StringExecFns;

verus! {

/// Whether no two of the fields have the same name.
pub open spec fn distinct_names(fields: Seq<(Seq<char>, Seq<char>)>) -> bool {
    forall|i: int, j: int|
        0 <= i < j < fields.len() ==> (#[trigger] fields[i]).0 != (#[trigger] fields[j]).0
}

/// Whether one of the fields has the name `key`.
pub open spec fn has_name(fields: Seq<(Seq<char>, Seq<char>)>, key: Seq<char>) -> bool {
    exists|i: int| 0 <= i < fields.len() && (#[trigger] fields[i]).0 == key
}

/// The fields after `key` was given the value `value`: the field of that
/// name holds the value where there is one, and a new field stands at the
/// end where there is none.
pub open spec fn with_field(
    fields: Seq<(Seq<char>, Seq<char>)>,
    key: Seq<char>,
    value: Seq<char>,
) -> Seq<(Seq<char>, Seq<char>)> {
    if has_name(fields, key) {
        Seq::new(
            fields.len(),
            |i: int|
                if fields[i].0 == key {
                    (key, value)
                } else {
                    fields[i]
                },
        )
    } else {
        fields.push((key, value))
    }
}

/// The text of the fields: for each its name, a colon and a blank, its
/// value and a line end; and one more line end behind the last.
pub open spec fn header_text(fields: Seq<(Seq<char>, Seq<char>)>) -> Seq<char> {
    field_lines(fields) + seq!['\r', '\n']
}

/// The lines of the fields, one behind the other.
pub open spec fn field_lines(fields: Seq<(Seq<char>, Seq<char>)>) -> Seq<char>
    decreases fields.len(),
{
    if fields.len() == 0 {
        Seq::empty()
    } else {
        field_lines(fields.drop_last()) + fields.last().0 + seq![':', ' '] + fields.last().1
            + seq!['\r', '\n']
    }
}

/// The fields as pairs of character strings.
pub open spec fn texts(fields: Seq<(String, String)>) -> Seq<(Seq<char>, Seq<char>)> {
    Seq::new(fields.len(), |i: int| (fields[i].0@, fields[i].1@))
}

/// Header fields: pairs of a name and a value, no name twice, in the order
/// in which they were added.
pub struct HttpHeader(Vec<(String, String)>);

impl View for HttpHeader {
    type V = Seq<(Seq<char>, Seq<char>)>;

    closed spec fn view(&self) -> Seq<(Seq<char>, Seq<char>)> {
        texts(self.0@)
    }
}

impl HttpHeader {
    #[verifier::type_invariant]
    spec fn inv(self) -> bool {
        distinct_names(self@)
    }

    /// A header without fields.
    pub fn new() -> (r: HttpHeader)
        ensures
            r@ == Seq::<(Seq<char>, Seq<char>)>::empty(),
    {
        let r = HttpHeader(Vec::new());
        assert(r@ =~= Seq::<(Seq<char>, Seq<char>)>::empty());
        r
    }

    /// The place of the field named `key`, if there is one.
    fn find(&self, key: &str) -> (r: Option<usize>)
        ensures
            r.is_some() == has_name(self@, key@),
            r.is_some() ==> r.unwrap() < self@.len() && self@[r.unwrap() as int].0 == key@,
    {
        let wanted = key.to_owned();
        let mut i: usize = 0;
        while i < self.0.len()
            invariant
                i <= self.0@.len(),
                wanted@ == key@,
                forall|j: int| 0 <= j < i ==> (#[trigger] self@[j]).0 != key@,
            decreases self.0.len() - i,
        {
            if self.0[i].0 == wanted {
                assert(self@[i as int].0 == key@);
                return Some(i);
            }
            i += 1;
        }
        None
    }

    /// The fields, each as a pair of name and value, in the order in which
    /// they were added.
    pub fn headers(&self) -> (v: Vec<(String, String)>)
        ensures
            v@.len() == self@.len(),
            forall|i: int|
                0 <= i < v@.len() ==> (#[trigger] v@[i]).0@ == self@[i].0 && v@[i].1@ == self@[i].1,
            distinct_names(self@),
    {
        proof {
            use_type_invariant(self);
        }
        let mut v: Vec<(String, String)> = Vec::new();
        let mut i: usize = 0;
        while i < self.0.len()
            invariant
                i <= self.0@.len(),
                v@.len() == i,
                forall|j: int|
                    0 <= j < i ==> (#[trigger] v@[j]).0@ == self@[j].0 && v@[j].1@ == self@[j].1,
            decreases self.0.len() - i,
        {
            v.push((self.0[i].0.clone(), self.0[i].1.clone()));
            i += 1;
        }
        v
    }

    /// Adds the field `key: value`; `Err`, with the header unchanged, where
    /// there is a field of that name already.
    pub fn add_header(&mut self, key: &str, value: &str) -> (r: Result<(), ()>)
        ensures
            has_name(old(self)@, key@) ==> r.is_err() && final(self)@ == old(self)@,
            !has_name(old(self)@, key@) ==> r.is_ok() && final(self)@ == old(self)@.push(
                (key@, value@),
            ),
    {
        proof {
            use_type_invariant(&*self);
        }
        if self.find(key).is_some() {
            return Err(());
        }
        let mut fields: Vec<(String, String)> = Vec::new();
        core::mem::swap(&mut self.0, &mut fields);
        let ghost before = texts(fields@);
        fields.push((key.to_owned(), value.to_owned()));
        proof {
            let after = texts(fields@);
            assert(after =~= before.push((key@, value@)));
            assert(distinct_names(after)) by {
                assert forall|i: int, j: int| 0 <= i < j < after.len() implies (
                #[trigger] after[i]).0 != (#[trigger] after[j]).0 by {
                    if j < before.len() {
                        assert(before[i].0 != before[j].0);
                    } else {
                        assert(before[i].0 != key@);
                    }
                }
            }
        }
        core::mem::swap(&mut self.0, &mut fields);
        Ok(())
    }

    /// Gives `key` the value `value`, in the field of that name where there
    /// is one, else in a new field at the end.
    pub fn set_header(&mut self, key: &str, value: &str)
        ensures
            final(self)@ == with_field(old(self)@, key@, value@),
    {
        proof {
            use_type_invariant(&*self);
        }
        match self.find(key) {
            None => {
                let _ = self.add_header(key, value);
            },
            Some(at) => {
                let mut fields: Vec<(String, String)> = Vec::new();
                core::mem::swap(&mut self.0, &mut fields);
                let ghost before = texts(fields@);
                fields[at] = (key.to_owned(), value.to_owned());
                proof {
                    let after = texts(fields@);
                    assert(after =~= with_field(before, key@, value@)) by {
                        assert forall|i: int| 0 <= i < before.len() implies #[trigger] after[i]
                            == (if before[i].0 == key@ {
                            (key@, value@)
                        } else {
                            before[i]
                        }) by {
                            if i != at {
                                if i < at {
                                    assert(before[i].0 != before[at as int].0);
                                } else {
                                    assert(before[at as int].0 != before[i].0);
                                }
                            }
                        }
                    }
                    assert forall|i: int, j: int| 0 <= i < j < after.len() implies (
                    #[trigger] after[i]).0 != (#[trigger] after[j]).0 by {
                        assert(before[i].0 != before[j].0);
                    }
                }
                core::mem::swap(&mut self.0, &mut fields);
            },
        }
    }

    /// The text of the header: each field on a line of its own, and an
    /// empty line behind them.
    pub fn to_string(&self) -> (r: String)
        ensures
            r@ == header_text(self@),
    {
        let mut result = self.field_text();
        proof {
            reveal_strlit("\r\n");
        }
        result.append("\r\n");
        assert(result@ =~= header_text(self@));
        result
    }

    /// The lines of the fields: each field on a line of its own.
    pub fn field_text(&self) -> (r: String)
        ensures
            r@ == field_lines(self@),
    {
        let mut result = String::new();
        let mut i: usize = 0;
        while i < self.0.len()
            invariant
                i <= self.0@.len(),
                result@ == field_lines(self@.subrange(0, i as int)),
            decreases self.0.len() - i,
        {
            proof {
                reveal_strlit(": ");
                reveal_strlit("\r\n");
                let upto = self@.subrange(0, i + 1);
                assert(upto.drop_last() =~= self@.subrange(0, i as int));
                assert(upto.last() == self@[i as int]);
            }
            result.append(self.0[i].0.as_str());
            result.append(": ");
            result.append(self.0[i].1.as_str());
            result.append("\r\n");
            i += 1;
            assert(result@ =~= field_lines(self@.subrange(0, i as int)));
        }
        assert(self@.subrange(0, i as int) =~= self@);
        result
    }

    /// Takes the field named `key` out and says whether there was one.
    pub fn remove_header(&mut self, key: &str) -> (r: bool)
        ensures
            r == has_name(old(self)@, key@),
            !r ==> final(self)@ == old(self)@,
            r ==> exists|at: int|
                0 <= at < old(self)@.len() && (#[trigger] old(self)@[at]).0 == key@ && final(self)@
                    == old(self)@.remove(at),
    {
        proof {
            use_type_invariant(&*self);
        }
        match self.find(key) {
            None => false,
            Some(at) => {
                let mut fields: Vec<(String, String)> = Vec::new();
                core::mem::swap(&mut self.0, &mut fields);
                let ghost before = texts(fields@);
                let _ = fields.remove(at);
                proof {
                    let after = texts(fields@);
                    assert(after =~= before.remove(at as int));
                    assert(distinct_names(after)) by {
                        assert forall|i: int, j: int| 0 <= i < j < after.len() implies (
                        #[trigger] after[i]).0 != (#[trigger] after[j]).0 by {
                            let bi = if i < at {
                                i
                            } else {
                                i + 1
                            };
                            let bj = if j < at {
                                j
                            } else {
                                j + 1
                            };
                            assert(before[bi].0 != before[bj].0);
                        }
                    }
                }
                core::mem::swap(&mut self.0, &mut fields);
                true
            },
        }
    }
}

impl Clone for HttpHeader {
    fn clone(&self) -> (r: HttpHeader)
        ensures
            r@ == self@,
    {
        proof {
            use_type_invariant(self);
        }
        let mut fields: Vec<(String, String)> = Vec::new();
        let mut i: usize = 0;
        while i < self.0.len()
            invariant
                i <= self.0@.len(),
                fields@.len() == i,
                forall|j: int|
                    0 <= j < i ==> (#[trigger] fields@[j]).0@ == self.0@[j].0@ && fields@[j].1@
                        == self.0@[j].1@,
            decreases self.0.len() - i,
        {
            fields.push((self.0[i].0.clone(), self.0[i].1.clone()));
            i += 1;
        }
        assert(texts(fields@) =~= texts(self.0@));
        HttpHeader(fields)
    }
}

impl Default for HttpHeader {
    /// A header without fields.
    fn default() -> (r: HttpHeader)
        ensures
            r@ == Seq::<(Seq<char>, Seq<char>)>::empty(),
    {
        HttpHeader::new()
    }
}

} // verus!
