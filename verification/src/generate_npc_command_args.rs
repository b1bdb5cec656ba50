use vstd::prelude::*;
use vstd::string::StrSliceExecFns;

use crate::command::CommandError;
use crate::consts::MAX_PROFESSION_LEVEL;
use crate::consts::MIN_PROFESSION_LEVEL;
use crate::text::char_is_lowercase;
use crate::text::is_lowercase_char;
use crate::text::push_char;

verus! {

/// An optional argument offset defaults to the front of the argument list.
pub open spec fn spec_offset(arg_offset: Option<usize>) -> int {
    match arg_offset {
        Some(o) => o as int,
        None => 0,
    }
}

/// Splitting at every single space, as the standard splitter does: an empty
/// string yields one empty part, and each space separates two (possibly
/// empty) parts.
pub open spec fn spec_split_spaces(s: Seq<char>) -> Seq<Seq<char>>
    decreases s.len(),
{
    if s.len() == 0 {
        seq![Seq::<char>::empty()]
    } else if s[0] == ' ' {
        seq![Seq::<char>::empty()] + spec_split_spaces(s.drop_first())
    } else {
        let rest = spec_split_spaces(s.drop_first());
        seq![seq![s[0]] + rest[0]] + rest.drop_first()
    }
}

pub proof fn lemma_split_nonempty(s: Seq<char>)
    ensures
        spec_split_spaces(s).len() >= 1,
    decreases s.len(),
{
    if s.len() > 0 {
        lemma_split_nonempty(s.drop_first());
    }
}

/// A spaceless prefix joins the first part of whatever follows it.
pub proof fn lemma_split_prefix(a: Seq<char>, rest: Seq<char>)
    requires
        forall|i: int| 0 <= i < a.len() ==> a[i] != ' ',
    ensures
        spec_split_spaces(a + rest) == seq![a + spec_split_spaces(rest)[0]] + spec_split_spaces(
            rest,
        ).drop_first(),
    decreases a.len(),
{
    lemma_split_nonempty(rest);
    if a.len() == 0 {
        assert(a + rest =~= rest);
        assert(a + spec_split_spaces(rest)[0] =~= spec_split_spaces(rest)[0]);
        assert(seq![a + spec_split_spaces(rest)[0]] + spec_split_spaces(rest).drop_first()
            =~~= spec_split_spaces(rest));
    } else {
        let s = a + rest;
        assert(s[0] == a[0]);
        assert(s.drop_first() =~= a.drop_first() + rest);
        lemma_split_prefix(a.drop_first(), rest);
        assert(seq![s[0]] + (a.drop_first() + spec_split_spaces(rest)[0]) =~= a
            + spec_split_spaces(rest)[0]);
        assert(spec_split_spaces(s) =~~= seq![a + spec_split_spaces(rest)[0]] + spec_split_spaces(
            rest,
        ).drop_first());
    }
}

/// Split a string at every single space.
#[verifier::loop_isolation(false)]
pub fn split_spaces(s: &str) -> (r: Vec<String>)
    ensures
        r.deep_view() == spec_split_spaces(s@),
{
    let n = s.unicode_len();
    let mut parts: Vec<String> = Vec::new();
    let mut cur = String::new();
    let mut i: usize = 0;
    proof {
        assert(cur@ + s@.skip(0) =~= s@);
    }
    while i < n
        invariant
            i <= s@.len(),
            forall|j: int| 0 <= j < cur@.len() ==> cur@[j] != ' ',
            spec_split_spaces(s@) == parts.deep_view() + spec_split_spaces(
                cur@ + s@.skip(i as int),
            ),
        decreases s@.len() - i,
    {
        let c = s.get_char(i);
        let ghost old_parts = parts.deep_view();
        let ghost old_cur = cur@;
        if c == ' ' {
            proof {
                assert(s@.skip(i as int) =~= seq![' '] + s@.skip(i + 1));
                assert(old_cur + s@.skip(i as int) =~= old_cur + (seq![' '] + s@.skip(i + 1)));
                lemma_split_prefix(old_cur, seq![' '] + s@.skip(i + 1));
                assert((seq![' '] + s@.skip(i + 1)).drop_first() =~= s@.skip(i + 1));
                assert(old_cur + Seq::<char>::empty() =~= old_cur);
            }
            parts.push(cur);
            cur = String::new();
            proof {
                assert(parts.deep_view() =~~= old_parts.push(old_cur));
                assert(cur@ + s@.skip(i + 1) =~= s@.skip(i + 1));
                assert(old_parts + (seq![old_cur] + spec_split_spaces(s@.skip(i + 1)))
                    =~~= old_parts.push(old_cur) + spec_split_spaces(s@.skip(i + 1)));
            }
        } else {
            push_char(&mut cur, c);
            proof {
                assert(cur@ + s@.skip(i + 1) =~= old_cur + s@.skip(i as int));
            }
        }
        i += 1;
    }
    proof {
        assert(cur@ + s@.skip(i as int) =~= cur@);
        lemma_split_prefix(cur@, Seq::<char>::empty());
        assert(cur@ + Seq::<char>::empty() =~= cur@);
        assert(spec_split_spaces(cur@) =~~= seq![cur@]);
    }
    let ghost old_parts = parts.deep_view();
    let ghost old_cur = cur@;
    parts.push(cur);
    proof {
        assert(parts.deep_view() =~~= old_parts.push(old_cur));
        assert(old_parts + seq![old_cur] =~~= old_parts.push(old_cur));
    }
    parts
}

/// A species identifier: lowercase characters only, more than one of them.
pub open spec fn spec_is_valid_species(s: Seq<char>) -> bool {
    &&& s.len() > 1
    &&& forall|i: int| 0 <= i < s.len() ==> is_lowercase_char(#[trigger] s[i])
}

pub open spec fn spec_is_digit(c: char) -> bool {
    48 <= c as u32 <= 57
}

pub open spec fn spec_digit_of(c: char) -> int {
    c as u32 - 48
}

/// A profession identifier: lowercase name segments joined by underscores,
/// ending in an underscore and one digit inside the configured level range
/// (exclusive upper bound).
pub open spec fn spec_is_valid_profession(p: Seq<char>) -> bool {
    &&& p.len() > 2
    &&& forall|i: int|
        0 <= i < p.len() - 2 ==> (is_lowercase_char(#[trigger] p[i]) || p[i] == '_')
    &&& p[p.len() - 2] == '_'
    &&& spec_is_digit(p[p.len() - 1])
    &&& MIN_PROFESSION_LEVEL <= spec_digit_of(p[p.len() - 1]) < MAX_PROFESSION_LEVEL
}

/// The textual arguments of one generate-npc command: the argument list is
/// borrowed, the professions argument stands right after the offset and the
/// species argument after it.
pub struct GenerateNpcCommandArgs<'a>(pub &'a Vec<String>);

impl<'a> GenerateNpcCommandArgs<'a> {
    /// The profession identifiers: the argument at the offset, split at
    /// spaces.
    pub fn professions(&self, arg_offset: Option<usize>) -> (r: Option<Vec<String>>)
        ensures
            match r {
                Some(parts) => spec_offset(arg_offset) < self.0@.len() && parts.deep_view()
                    == spec_split_spaces(self.0@[spec_offset(arg_offset)]@),
                None => spec_offset(arg_offset) >= self.0@.len(),
            },
    {
        let off = match arg_offset {
            Some(o) => o,
            None => 0,
        };
        if off >= self.0.len() {
            return None;
        }
        Some(split_spaces(self.0[off].as_str()))
    }

    /// The species identifier: the argument right after the professions.
    pub fn species(&self, arg_offset: Option<usize>) -> (r: Option<&String>)
        ensures
            match r {
                Some(s) => spec_offset(arg_offset) + 1 < self.0@.len() && s@ == self.0@[spec_offset(
                    arg_offset,
                ) + 1]@,
                None => spec_offset(arg_offset) + 1 >= self.0@.len(),
            },
    {
        let off = match arg_offset {
            Some(o) => o,
            None => 0,
        };
        let len = self.0.len();
        if off >= len {
            return None;
        }
        if off + 1 >= len {
            return None;
        }
        Some(&self.0[off + 1])
    }

    /// Every profession identifier of the professions argument must be valid.
    #[verifier::loop_isolation(false)]
    pub fn validate_professions<'b>(&'b self, arg_offset: Option<usize>) -> (r: Result<
        &'b Self,
        CommandError,
    >)
        requires
            spec_offset(arg_offset) < self.0@.len(),
        ensures
            ({
                let parts = spec_split_spaces(self.0@[spec_offset(arg_offset)]@);
                match r {
                    Ok(_) => forall|i: int|
                        0 <= i < parts.len() ==> spec_is_valid_profession(#[trigger] parts[i]),
                    Err(e) => e == CommandError::InvalidArguments && exists|i: int|
                        0 <= i < parts.len() && !spec_is_valid_profession(#[trigger] parts[i]),
                }
            }),
    {
        let parts = match self.professions(arg_offset) {
            Some(p) => p,
            None => {
                proof {
                    assert(false);
                }
                vstd::pervasive::unreached()
            },
        };
        let mut i: usize = 0;
        while i < parts.len()
            invariant
                i <= parts@.len(),
                forall|j: int|
                    0 <= j < i ==> spec_is_valid_profession(#[trigger] parts.deep_view()[j]),
            decreases parts@.len() - i,
        {
            if !Self::is_valid_profession(parts[i].as_str()) {
                proof {
                    assert(!spec_is_valid_profession(
                        spec_split_spaces(self.0@[spec_offset(arg_offset)]@)[i as int],
                    ));
                }
                return Err(CommandError::InvalidArguments);
            }
            i += 1;
        }
        Ok(self)
    }

    /// The species argument must be a valid species identifier.
    pub fn validate_species<'b>(&'b self, arg_offset: Option<usize>) -> (r: Result<
        &'b Self,
        CommandError,
    >)
        requires
            spec_offset(arg_offset) + 1 < self.0@.len(),
        ensures
            match r {
                Ok(_) => spec_is_valid_species(self.0@[spec_offset(arg_offset) + 1]@),
                Err(e) => e == CommandError::InvalidArguments && !spec_is_valid_species(
                    self.0@[spec_offset(arg_offset) + 1]@,
                ),
            },
    {
        let species = match self.species(arg_offset) {
            Some(s) => s,
            None => {
                proof {
                    assert(false);
                }
                vstd::pervasive::unreached()
            },
        };
        if !Self::is_valid_species(species.as_str()) {
            return Err(CommandError::InvalidArguments);
        }
        Ok(self)
    }

    #[verifier::loop_isolation(false)]
    pub fn is_valid_species(species: &str) -> (r: bool)
        ensures
            r == spec_is_valid_species(species@),
    {
        let n = species.unicode_len();
        if n <= 1 {
            return false;
        }
        let mut i: usize = 0;
        while i < n
            invariant
                i <= n,
                forall|j: int| 0 <= j < i ==> is_lowercase_char(#[trigger] species@[j]),
            decreases n - i,
        {
            if !char_is_lowercase(species.get_char(i)) {
                return false;
            }
            i += 1;
        }
        true
    }

    #[verifier::loop_isolation(false)]
    pub fn is_valid_profession(profession: &str) -> (r: bool)
        ensures
            r == spec_is_valid_profession(profession@),
    {
        let n = profession.unicode_len();
        if n <= 2 {
            return false;
        }
        let mut i: usize = 0;
        while i < n - 2
            invariant
                i <= n - 2,
                forall|j: int|
                    0 <= j < i ==> (is_lowercase_char(#[trigger] profession@[j]) || profession@[j]
                        == '_'),
            decreases n - 2 - i,
        {
            let c = profession.get_char(i);
            if !char_is_lowercase(c) && c != '_' {
                return false;
            }
            i += 1;
        }
        if profession.get_char(n - 2) != '_' {
            return false;
        }
        let level_char = profession.get_char(n - 1) as u32;
        if level_char < 48 || level_char > 57 {
            return false;
        }
        let level = level_char - 48;
        MIN_PROFESSION_LEVEL <= level && level < MAX_PROFESSION_LEVEL
    }
}

} // verus!
