use vstd::prelude::*;
use vstd::string::StrSliceExecFns;
use vstd::string::StringExecFns;

use crate::character::Character;
use crate::character_attributes_iter::CharacterAttributesIter;
use crate::character_displayer::CharacterDisplayer;
use crate::character_attributes_iter::spec_attribute_level;
use crate::character_attributes_iter::spec_attribute_name;
use crate::skill::Skill;
use crate::talent::Talent;
use crate::text::push_char;
use crate::text::spaces;
use crate::text::spec_decimal_digits;
use crate::text::spec_spaces;
use crate::text::u32_to_string;
use crate::trapping::Trapping;

verus! {

/// Widest table the console display may produce, prefixes included.
pub const MAX_CONSOLE_DISPLAY_LENGTH: usize = 60;

/// One table cell: the content, padding up to the column width, and the
/// column delimiter.
pub open spec fn spec_cell(s: Seq<char>, width: int) -> Seq<char> {
    s + spec_spaces(width - s.len()) + seq!['|']
}

/// One table row: the prefix, the leading delimiter, and one cell per entry.
pub open spec fn spec_row(prefix: Seq<char>, cells: Seq<Seq<char>>, width: int) -> Seq<char>
    decreases cells.len(),
{
    if cells.len() == 0 {
        prefix + seq!['|']
    } else {
        spec_row(prefix, cells.drop_last(), width) + spec_cell(cells.last(), width)
    }
}

/// A paired table: the entries are wrapped into chunks of at most `chunk`
/// columns, each chunk printed as a top row and a bottom row.
pub open spec fn spec_table(
    tops: Seq<Seq<char>>,
    bottoms: Seq<Seq<char>>,
    top_prefix: Seq<char>,
    bottom_prefix: Seq<char>,
    width: int,
    chunk: int,
) -> Seq<char>
    decreases tops.len(),
{
    if tops.len() == 0 {
        Seq::empty()
    } else {
        let n = if chunk < 1 {
            1
        } else if tops.len() < chunk {
            tops.len() as int
        } else {
            chunk
        };
        spec_row(top_prefix, tops.take(n), width) + seq!['\n'] + spec_row(
            bottom_prefix,
            bottoms.take(n),
            width,
        ) + seq!['\n'] + spec_table(tops.skip(n), bottoms.skip(n), top_prefix, bottom_prefix, width, chunk)
    }
}

/// The widest entry of a column's cells.
pub open spec fn spec_max_len(cells: Seq<Seq<char>>) -> int
    decreases cells.len(),
{
    if cells.len() == 0 {
        0
    } else {
        let rest = spec_max_len(cells.drop_last());
        if cells.last().len() > rest {
            cells.last().len() as int
        } else {
            rest
        }
    }
}

pub proof fn lemma_max_len_bound(cells: Seq<Seq<char>>)
    ensures
        spec_max_len(cells) >= 0,
        forall|i: int| 0 <= i < cells.len() ==> (#[trigger] cells[i]).len() <= spec_max_len(cells),
    decreases cells.len(),
{
    if cells.len() > 0 {
        lemma_max_len_bound(cells.drop_last());
        assert forall|i: int| 0 <= i < cells.len() implies (#[trigger] cells[i]).len()
            <= spec_max_len(cells) by {
            if i < cells.len() - 1 {
                assert(cells.drop_last()[i] == cells[i]);
            }
        }
    }
}

/// The column width shared by both rows of a paired table.
pub open spec fn spec_table_width(tops: Seq<Seq<char>>, bottoms: Seq<Seq<char>>) -> int {
    if spec_max_len(tops) > spec_max_len(bottoms) {
        spec_max_len(tops)
    } else {
        spec_max_len(bottoms)
    }
}

/// How many columns fit one chunk: whatever the display width leaves after
/// the prefix, at least one.
pub open spec fn spec_elem_count(prefix_len: int, width: int) -> int {
    let cap = (MAX_CONSOLE_DISPLAY_LENGTH - prefix_len) / width;
    if cap < 1 {
        1
    } else {
        cap
    }
}

/// A paired table rendered with the width of its widest cell and the column
/// count the display width allows.
pub open spec fn spec_paired_table(
    tops: Seq<Seq<char>>,
    bottoms: Seq<Seq<char>>,
    top_prefix: Seq<char>,
    bottom_prefix: Seq<char>,
) -> Seq<char> {
    spec_table(
        tops,
        bottoms,
        top_prefix,
        bottom_prefix,
        spec_table_width(tops, bottoms),
        spec_elem_count(
            if top_prefix.len() > bottom_prefix.len() {
                top_prefix.len() as int
            } else {
                bottom_prefix.len() as int
            },
            spec_table_width(tops, bottoms),
        ),
    )
}

/// A decimal rendering is never empty.
pub proof fn lemma_decimal_len(n: int)
    ensures
        spec_decimal_digits(n).len() >= 1,
{
    if n < 10 {
    } else {
    }
}

/// The widest entry of a column, computed cell by cell.
#[verifier::loop_isolation(false)]
fn max_cell_len(cells: &Vec<String>) -> (r: usize)
    ensures
        r == spec_max_len(cells.deep_view()),
{
    let mut r: usize = 0;
    let mut i: usize = 0;
    proof {
        assert(cells.deep_view().take(0) =~~= Seq::<Seq<char>>::empty());
    }
    while i < cells.len()
        invariant
            i <= cells@.len(),
            r == spec_max_len(cells.deep_view().take(i as int)),
        decreases cells@.len() - i,
    {
        let l = cells[i].as_str().unicode_len();
        proof {
            assert(cells.deep_view().take(i + 1).drop_last() =~~= cells.deep_view().take(i as int));
            assert(cells.deep_view().take(i + 1).last() == cells.deep_view()[i as int]);
        }
        if l > r {
            r = l;
        }
        i += 1;
    }
    proof {
        assert(cells.deep_view().take(cells.deep_view().len() as int) =~~= cells.deep_view());
    }
    r
}

/// Peeling one chunk off a paired table: the table of the remaining entries
/// is the chunk's two rows followed by the table of what follows the chunk.
proof fn lemma_table_chunk(
    tops: Seq<Seq<char>>,
    bottoms: Seq<Seq<char>>,
    top_prefix: Seq<char>,
    bottom_prefix: Seq<char>,
    width: int,
    chunk: int,
    start: int,
    n: int,
)
    requires
        tops.len() == bottoms.len(),
        0 <= start < tops.len(),
        chunk >= 1,
        n == if tops.len() - start < chunk {
            tops.len() - start
        } else {
            chunk
        },
    ensures
        spec_table(tops.skip(start), bottoms.skip(start), top_prefix, bottom_prefix, width, chunk)
            == spec_row(top_prefix, tops.subrange(start, start + n), width) + seq!['\n']
            + spec_row(bottom_prefix, bottoms.subrange(start, start + n), width) + seq!['\n']
            + spec_table(
            tops.skip(start + n),
            bottoms.skip(start + n),
            top_prefix,
            bottom_prefix,
            width,
            chunk,
        ),
{
    let rem_tops = tops.skip(start);
    let rem_bottoms = bottoms.skip(start);
    assert(rem_tops.take(n) =~~= tops.subrange(start, start + n));
    assert(rem_bottoms.take(n) =~~= bottoms.subrange(start, start + n));
    assert(rem_tops.skip(n) =~~= tops.skip(start + n));
    assert(rem_bottoms.skip(n) =~~= bottoms.skip(start + n));
}

/// Renders a finished character as a set of textual tables for the console.
pub struct ConsoleCharacterDisplayer {}

impl ConsoleCharacterDisplayer {
    pub fn new() -> ConsoleCharacterDisplayer {
        ConsoleCharacterDisplayer {}
    }

    /// One table cell: the content, spaces up to the column width, and the
    /// delimiter.
    pub fn create_table_record(displayed_data: &str, min_width: usize) -> (r: String)
        requires
            displayed_data@.len() <= min_width,
        ensures
            r@ == spec_cell(displayed_data@, min_width as int),
    {
        let displayed_len = displayed_data.unicode_len();
        let justify = spaces(min_width - displayed_len);
        let mut r = String::from_str(displayed_data);
        r.append(justify.as_str());
        push_char(&mut r, '|');
        proof {
            assert(r@ =~= spec_cell(displayed_data@, min_width as int));
        }
        r
    }

    /// Render one paired table: column width from the widest cell, columns per
    /// chunk from the display width, rows wrapped chunk by chunk.
    fn create_table(
        tops: &Vec<String>,
        bottoms: &Vec<String>,
        top_prefix: &str,
        bottom_prefix: &str,
    ) -> (r: String)
        requires
            tops@.len() == bottoms@.len(),
            tops@.len() > 0,
            spec_table_width(tops.deep_view(), bottoms.deep_view()) >= 1,
            top_prefix@.len() <= MAX_CONSOLE_DISPLAY_LENGTH,
            bottom_prefix@.len() <= MAX_CONSOLE_DISPLAY_LENGTH,
        ensures
            r@ == spec_table(
                tops.deep_view(),
                bottoms.deep_view(),
                top_prefix@,
                bottom_prefix@,
                spec_table_width(tops.deep_view(), bottoms.deep_view()),
                spec_elem_count(
                    if top_prefix@.len() > bottom_prefix@.len() {
                        top_prefix@.len() as int
                    } else {
                        bottom_prefix@.len() as int
                    },
                    spec_table_width(tops.deep_view(), bottoms.deep_view()),
                ),
            ),
    {
        proof {
            lemma_max_len_bound(tops.deep_view());
            lemma_max_len_bound(bottoms.deep_view());
        }
        let top_width = max_cell_len(tops);
        let bottom_width = max_cell_len(bottoms);
        let width = if top_width > bottom_width {
            top_width
        } else {
            bottom_width
        };
        let top_prefix_len = top_prefix.unicode_len();
        let bottom_prefix_len = bottom_prefix.unicode_len();
        let prefix_len = if top_prefix_len > bottom_prefix_len {
            top_prefix_len
        } else {
            bottom_prefix_len
        };
        let cap = (MAX_CONSOLE_DISPLAY_LENGTH - prefix_len) / width;
        let elem_count = if cap < 1 {
            1
        } else {
            cap
        };
        Self::create_table_rows(tops, bottoms, top_prefix, bottom_prefix, width, elem_count)
    }

    /// Render the chunked rows of one paired table at a fixed column width and
    /// chunk size.
    #[verifier::loop_isolation(false)]
    #[verifier::rlimit(100)]
    fn create_table_rows(
        tops: &Vec<String>,
        bottoms: &Vec<String>,
        top_prefix: &str,
        bottom_prefix: &str,
        width: usize,
        elem_count: usize,
    ) -> (r: String)
        requires
            tops@.len() == bottoms@.len(),
            tops@.len() > 0,
            width >= 1,
            elem_count >= 1,
            forall|i: int|
                0 <= i < tops@.len() ==> (#[trigger] tops.deep_view()[i]).len() <= width,
            forall|i: int|
                0 <= i < bottoms@.len() ==> (#[trigger] bottoms.deep_view()[i]).len() <= width,
        ensures
            r@ == spec_table(
                tops.deep_view(),
                bottoms.deep_view(),
                top_prefix@,
                bottom_prefix@,
                width as int,
                elem_count as int,
            ),
    {
        let ghost dtops = tops.deep_view();
        let ghost dbottoms = bottoms.deep_view();
        let mut ret = String::new();
        let mut start: usize = 0;
        proof {
            assert(dtops.skip(0) =~~= dtops);
            assert(dbottoms.skip(0) =~~= dbottoms);
        }
        while start < tops.len()
            invariant
                start <= tops@.len(),
                spec_table(dtops, dbottoms, top_prefix@, bottom_prefix@, width as int, elem_count as int)
                    == ret@ + spec_table(
                    dtops.skip(start as int),
                    dbottoms.skip(start as int),
                    top_prefix@,
                    bottom_prefix@,
                    width as int,
                    elem_count as int,
                ),
            decreases tops@.len() - start,
        {
            let remaining = tops.len() - start;
            let n = if remaining < elem_count {
                remaining
            } else {
                elem_count
            };
            let mut top_row = String::from_str(top_prefix);
            push_char(&mut top_row, '|');
            let mut bottom_row = String::from_str(bottom_prefix);
            push_char(&mut bottom_row, '|');
            proof {
                assert(dtops.subrange(start as int, start as int) =~~= Seq::<Seq<char>>::empty());
                assert(dbottoms.subrange(start as int, start as int) =~~= Seq::<
                    Seq<char>,
                >::empty());
                assert(top_row@ =~= spec_row(
                    top_prefix@,
                    dtops.subrange(start as int, start as int),
                    width as int,
                ));
                assert(bottom_row@ =~= spec_row(
                    bottom_prefix@,
                    dbottoms.subrange(start as int, start as int),
                    width as int,
                ));
            }
            let mut j: usize = 0;
            while j < n
                invariant
                    j <= n,
                    start + n <= tops@.len(),
                    top_row@ == spec_row(
                        top_prefix@,
                        dtops.subrange(start as int, start + j),
                        width as int,
                    ),
                    bottom_row@ == spec_row(
                        bottom_prefix@,
                        dbottoms.subrange(start as int, start + j),
                        width as int,
                    ),
                decreases n - j,
            {
                proof {
                    assert(tops@[start + j]@ == dtops[start + j]);
                    assert(dtops[start + j].len() <= width);
                    assert(bottoms@[start + j]@ == dbottoms[start + j]);
                    assert(dbottoms[start + j].len() <= width);
                }
                let top_cell = Self::create_table_record(tops[start + j].as_str(), width);
                top_row.append(top_cell.as_str());
                let bottom_cell = Self::create_table_record(bottoms[start + j].as_str(), width);
                bottom_row.append(bottom_cell.as_str());
                proof {
                    assert(dtops.subrange(start as int, start + j + 1).drop_last()
                        =~~= dtops.subrange(start as int, start + j));
                    assert(dtops.subrange(start as int, start + j + 1).last() == dtops[start + j]);
                    assert(dbottoms.subrange(start as int, start + j + 1).drop_last()
                        =~~= dbottoms.subrange(start as int, start + j));
                    assert(dbottoms.subrange(start as int, start + j + 1).last() == dbottoms[start
                        + j]);
                }
                j += 1;
            }
            let ghost ret_before = ret@;
            ret.append(top_row.as_str());
            push_char(&mut ret, '\n');
            ret.append(bottom_row.as_str());
            push_char(&mut ret, '\n');
            proof {
                lemma_table_chunk(
                    dtops,
                    dbottoms,
                    top_prefix@,
                    bottom_prefix@,
                    width as int,
                    elem_count as int,
                    start as int,
                    n as int,
                );
                let chunk_text = spec_row(
                    top_prefix@,
                    dtops.subrange(start as int, start + n),
                    width as int,
                ) + seq!['\n'] + spec_row(
                    bottom_prefix@,
                    dbottoms.subrange(start as int, start + n),
                    width as int,
                ) + seq!['\n'];
                let rest_table = spec_table(
                    dtops.skip(start + n),
                    dbottoms.skip(start + n),
                    top_prefix@,
                    bottom_prefix@,
                    width as int,
                    elem_count as int,
                );
                assert(ret@ =~= ret_before + chunk_text);
                assert(ret_before + (chunk_text + rest_table) =~= (ret_before + chunk_text)
                    + rest_table);
            }
            start += n;
        }
        proof {
            assert(dtops.skip(tops@.len() as int) =~~= Seq::<Seq<char>>::empty());
            assert(ret@ + Seq::<char>::empty() =~= ret@);
        }
        ret
    }

    /// The talents table: names over levels.
    pub fn create_talent_table(data: &Vec<Talent>) -> (r: String)
        requires
            data@.len() > 0,
        ensures
            r@ == spec_paired_table(
                spec_talent_names(data@),
                spec_talent_levels(data@),
                "Talent        "@,
                "Levels        "@,
            ),
    {
        let mut tops: Vec<String> = Vec::new();
        let mut bottoms: Vec<String> = Vec::new();
        let mut i: usize = 0;
        while i < data.len()
            invariant
                i <= data@.len(),
                tops@.len() == i,
                bottoms@.len() == i,
                forall|j: int|
                    0 <= j < i ==> #[trigger] tops.deep_view()[j] == data@[j].name@
                        && bottoms.deep_view()[j] == spec_decimal_digits(data@[j].level as int),
            decreases data@.len() - i,
        {
            let ghost prev_tops = tops@;
            let ghost prev_bottoms = bottoms@;
            let ghost prev_deep_tops = tops.deep_view();
            let ghost prev_deep_bottoms = bottoms.deep_view();
            tops.push(data[i].name.clone());
            bottoms.push(u32_to_string(data[i].level));
            proof {
                assert forall|j: int| 0 <= j < i implies #[trigger] tops.deep_view()[j]
                    == prev_deep_tops[j] && bottoms.deep_view()[j] == prev_deep_bottoms[j] by {
                    assert(tops@[j] == prev_tops[j]);
                    assert(bottoms@[j] == prev_bottoms[j]);
                    assert(prev_deep_tops[j] == prev_tops[j]@);
                    assert(prev_deep_bottoms[j] == prev_bottoms[j]@);
                }
                assert(tops.deep_view()[i as int] == tops@[i as int]@);
                assert(bottoms.deep_view()[i as int] == bottoms@[i as int]@);
            }
            i += 1;
        }
        proof {
            assert(tops.deep_view() =~~= spec_talent_names(data@));
            assert forall|j: int| 0 <= j < data@.len() implies #[trigger] bottoms.deep_view()[j]
                == spec_talent_levels(data@)[j] by {
                assert(spec_talent_levels(data@)[j] == spec_decimal_digits(data@[j].level as int));
                assert(tops.deep_view()[j] == data@[j].name@);
            }
            assert(bottoms.deep_view() =~~= spec_talent_levels(data@));
            lemma_decimal_len(data@[0].level as int);
            lemma_max_len_bound(bottoms.deep_view());
            assert(bottoms.deep_view()[0].len() >= 1);
            reveal_strlit("Talent        ");
            reveal_strlit("Levels        ");
        }
        Self::create_table(&tops, &bottoms, "Talent        ", "Levels        ")
    }

    /// The skills table: names over values.
    pub fn create_skill_table(data: &Vec<Skill>) -> (r: String)
        requires
            data@.len() > 0,
        ensures
            r@ == spec_paired_table(
                spec_skill_names(data@),
                spec_skill_values(data@),
                "Skill         "@,
                "Values        "@,
            ),
    {
        let mut tops: Vec<String> = Vec::new();
        let mut bottoms: Vec<String> = Vec::new();
        let mut i: usize = 0;
        while i < data.len()
            invariant
                i <= data@.len(),
                tops@.len() == i,
                bottoms@.len() == i,
                forall|j: int|
                    0 <= j < i ==> #[trigger] tops.deep_view()[j] == data@[j].name@
                        && bottoms.deep_view()[j] == spec_decimal_digits(data@[j].value as int),
            decreases data@.len() - i,
        {
            let ghost prev_tops = tops@;
            let ghost prev_bottoms = bottoms@;
            let ghost prev_deep_tops = tops.deep_view();
            let ghost prev_deep_bottoms = bottoms.deep_view();
            tops.push(data[i].name.clone());
            bottoms.push(u32_to_string(data[i].value));
            proof {
                assert forall|j: int| 0 <= j < i implies #[trigger] tops.deep_view()[j]
                    == prev_deep_tops[j] && bottoms.deep_view()[j] == prev_deep_bottoms[j] by {
                    assert(tops@[j] == prev_tops[j]);
                    assert(bottoms@[j] == prev_bottoms[j]);
                    assert(prev_deep_tops[j] == prev_tops[j]@);
                    assert(prev_deep_bottoms[j] == prev_bottoms[j]@);
                }
                assert(tops.deep_view()[i as int] == tops@[i as int]@);
                assert(bottoms.deep_view()[i as int] == bottoms@[i as int]@);
            }
            i += 1;
        }
        proof {
            assert(tops.deep_view() =~~= spec_skill_names(data@));
            assert forall|j: int| 0 <= j < data@.len() implies #[trigger] bottoms.deep_view()[j]
                == spec_skill_values(data@)[j] by {
                assert(spec_skill_values(data@)[j] == spec_decimal_digits(data@[j].value as int));
                assert(tops.deep_view()[j] == data@[j].name@);
            }
            assert(bottoms.deep_view() =~~= spec_skill_values(data@));
            lemma_decimal_len(data@[0].value as int);
            lemma_max_len_bound(bottoms.deep_view());
            assert(bottoms.deep_view()[0].len() >= 1);
            reveal_strlit("Skill         ");
            reveal_strlit("Values        ");
        }
        Self::create_table(&tops, &bottoms, "Skill         ", "Values        ")
    }

    /// The trappings table: names over counts.
    pub fn create_trappings_table(data: &Vec<Trapping>) -> (r: String)
        requires
            data@.len() > 0,
        ensures
            r@ == spec_paired_table(
                spec_trapping_names(data@),
                spec_trapping_counts(data@),
                "Trapping      "@,
                "Count         "@,
            ),
    {
        let mut tops: Vec<String> = Vec::new();
        let mut bottoms: Vec<String> = Vec::new();
        let mut i: usize = 0;
        while i < data.len()
            invariant
                i <= data@.len(),
                tops@.len() == i,
                bottoms@.len() == i,
                forall|j: int|
                    0 <= j < i ==> #[trigger] tops.deep_view()[j] == data@[j].name@
                        && bottoms.deep_view()[j] == spec_decimal_digits(data@[j].count as int),
            decreases data@.len() - i,
        {
            let ghost prev_tops = tops@;
            let ghost prev_bottoms = bottoms@;
            let ghost prev_deep_tops = tops.deep_view();
            let ghost prev_deep_bottoms = bottoms.deep_view();
            tops.push(data[i].name.clone());
            bottoms.push(u32_to_string(data[i].count));
            proof {
                assert forall|j: int| 0 <= j < i implies #[trigger] tops.deep_view()[j]
                    == prev_deep_tops[j] && bottoms.deep_view()[j] == prev_deep_bottoms[j] by {
                    assert(tops@[j] == prev_tops[j]);
                    assert(bottoms@[j] == prev_bottoms[j]);
                    assert(prev_deep_tops[j] == prev_tops[j]@);
                    assert(prev_deep_bottoms[j] == prev_bottoms[j]@);
                }
                assert(tops.deep_view()[i as int] == tops@[i as int]@);
                assert(bottoms.deep_view()[i as int] == bottoms@[i as int]@);
            }
            i += 1;
        }
        proof {
            assert(tops.deep_view() =~~= spec_trapping_names(data@));
            assert forall|j: int| 0 <= j < data@.len() implies #[trigger] bottoms.deep_view()[j]
                == spec_trapping_counts(data@)[j] by {
                assert(spec_trapping_counts(data@)[j] == spec_decimal_digits(data@[j].count as int));
                assert(tops.deep_view()[j] == data@[j].name@);
            }
            assert(bottoms.deep_view() =~~= spec_trapping_counts(data@));
            lemma_decimal_len(data@[0].count as int);
            lemma_max_len_bound(bottoms.deep_view());
            assert(bottoms.deep_view()[0].len() >= 1);
            reveal_strlit("Trapping      ");
            reveal_strlit("Count         ");
        }
        Self::create_table(&tops, &bottoms, "Trapping      ", "Count         ")
    }

    /// The general statistics table: the twelve fixed labels over the
    /// character's values.
    pub fn create_general_skills_table(character: &Character) -> (r: String)
        ensures
            r@ == spec_paired_table(
                spec_general_names(),
                spec_general_levels(*character),
                "General Skill "@,
                "Level         "@,
            ),
    {
        let mut iter = CharacterAttributesIter::new(character);
        let mut tops: Vec<String> = Vec::new();
        let mut bottoms: Vec<String> = Vec::new();
        let mut i: usize = 0;
        while i < 12
            invariant
                i <= 12,
                iter.spec_character() == *character,
                iter.spec_index() == i,
                tops@.len() == i,
                bottoms@.len() == i,
                forall|j: int|
                    0 <= j < i ==> #[trigger] tops.deep_view()[j] == spec_attribute_name(j)
                        && bottoms.deep_view()[j] == spec_decimal_digits(
                        spec_attribute_level(*character, j) as int,
                    ),
            decreases 12 - i,
        {
            let row = match iter.next() {
                Some(x) => x,
                None => {
                    proof {
                        assert(false);
                    }
                    vstd::pervasive::unreached()
                },
            };
            let ghost prev_tops = tops@;
            let ghost prev_bottoms = bottoms@;
            let ghost prev_deep_tops = tops.deep_view();
            let ghost prev_deep_bottoms = bottoms.deep_view();
            tops.push(String::from_str(row.name));
            bottoms.push(u32_to_string(row.level));
            proof {
                assert forall|j: int| 0 <= j < i implies #[trigger] tops.deep_view()[j]
                    == prev_deep_tops[j] && bottoms.deep_view()[j] == prev_deep_bottoms[j] && prev_deep_tops[j] == spec_attribute_name(j) by {
                    assert(tops@[j] == prev_tops[j]);
                    assert(bottoms@[j] == prev_bottoms[j]);
                    assert(prev_deep_tops[j] == prev_tops[j]@);
                    assert(prev_deep_bottoms[j] == prev_bottoms[j]@);
                }
                assert(tops.deep_view()[i as int] == tops@[i as int]@);
                assert(bottoms.deep_view()[i as int] == bottoms@[i as int]@);
                assert(tops@[i as int]@ == spec_attribute_name(i as int));
                assert(bottoms@[i as int]@ == spec_decimal_digits(
                    spec_attribute_level(*character, i as int) as int,
                ));
            }
            i += 1;
        }
        proof {
            assert(tops.deep_view() =~~= spec_general_names());
            assert forall|j: int| 0 <= j < 12 implies #[trigger] bottoms.deep_view()[j]
                == spec_general_levels(*character)[j] by {
                assert(spec_general_levels(*character)[j] == spec_decimal_digits(
                    spec_attribute_level(*character, j) as int,
                ));
                assert(tops.deep_view()[j] == spec_attribute_name(j));
            }
            assert(bottoms.deep_view() =~~= spec_general_levels(*character));
            lemma_decimal_len(spec_attribute_level(*character, 0) as int);
            lemma_max_len_bound(bottoms.deep_view());
            assert(bottoms.deep_view()[0].len() >= 1);
            reveal_strlit("General Skill ");
            reveal_strlit("Level         ");
        }
        Self::create_table(&tops, &bottoms, "General Skill ", "Level         ")
    }

    /// The full console rendering: talents, skills, trappings and general
    /// statistics, each under its header.
    pub fn print(&self, character: &Character) -> (r: String)
        requires
            character.talents@.len() > 0,
            character.skills@.len() > 0,
            character.trappings@.len() > 0,
        ensures
            r@ == spec_character_display(*character),
    {
        let mut out = String::from_str("---Talents---");
        out.append("\n\n");
        let talent_table = Self::create_talent_table(&character.talents);
        out.append(talent_table.as_str());
        out.append("\n");
        out.append("---Skills---");
        out.append("\n\n");
        let skill_table = Self::create_skill_table(&character.skills);
        out.append(skill_table.as_str());
        out.append("\n");
        out.append("---Trappings---");
        out.append("\n\n");
        let trappings_table = Self::create_trappings_table(&character.trappings);
        out.append(trappings_table.as_str());
        out.append("\n");
        out.append("---General Skills---");
        out.append("\n\n");
        let general_table = Self::create_general_skills_table(character);
        out.append(general_table.as_str());
        proof {
            assert(out@ =~= spec_character_display(*character));
        }
        out
    }
}

impl CharacterDisplayer<String> for ConsoleCharacterDisplayer {
    fn print(&self, character: &Character) -> String {
        ConsoleCharacterDisplayer::print(self, character)
    }
}

/// The talent names as table cells.
pub open spec fn spec_talent_names(data: Seq<Talent>) -> Seq<Seq<char>> {
    data.map_values(|t: Talent| t.name@)
}

/// The talent levels, rendered, as table cells.
pub open spec fn spec_talent_levels(data: Seq<Talent>) -> Seq<Seq<char>> {
    data.map_values(|t: Talent| spec_decimal_digits(t.level as int))
}

/// The skill names as table cells.
pub open spec fn spec_skill_names(data: Seq<Skill>) -> Seq<Seq<char>> {
    data.map_values(|s: Skill| s.name@)
}

/// The skill values, rendered, as table cells.
pub open spec fn spec_skill_values(data: Seq<Skill>) -> Seq<Seq<char>> {
    data.map_values(|s: Skill| spec_decimal_digits(s.value as int))
}

/// The trapping names as table cells.
pub open spec fn spec_trapping_names(data: Seq<Trapping>) -> Seq<Seq<char>> {
    data.map_values(|t: Trapping| t.name@)
}

/// The trapping counts, rendered, as table cells.
pub open spec fn spec_trapping_counts(data: Seq<Trapping>) -> Seq<Seq<char>> {
    data.map_values(|t: Trapping| spec_decimal_digits(t.count as int))
}

/// The twelve fixed general-statistics labels as table cells.
pub open spec fn spec_general_names() -> Seq<Seq<char>> {
    Seq::new(12, |i: int| spec_attribute_name(i))
}

/// The character's twelve general-statistics values, rendered, as table cells.
pub open spec fn spec_general_levels(c: Character) -> Seq<Seq<char>> {
    Seq::new(12, |i: int| spec_decimal_digits(spec_attribute_level(c, i) as int))
}

/// The whole console display: each table under its header.
pub open spec fn spec_character_display(c: Character) -> Seq<char> {
    "---Talents---"@ + "\n\n"@ + spec_paired_table(
        spec_talent_names(c.talents@),
        spec_talent_levels(c.talents@),
        "Talent        "@,
        "Levels        "@,
    ) + "\n"@ + "---Skills---"@ + "\n\n"@ + spec_paired_table(
        spec_skill_names(c.skills@),
        spec_skill_values(c.skills@),
        "Skill         "@,
        "Values        "@,
    ) + "\n"@ + "---Trappings---"@ + "\n\n"@ + spec_paired_table(
        spec_trapping_names(c.trappings@),
        spec_trapping_counts(c.trappings@),
        "Trapping      "@,
        "Count         "@,
    ) + "\n"@ + "---General Skills---"@ + "\n\n"@ + spec_paired_table(
        spec_general_names(),
        spec_general_levels(c),
        "General Skill "@,
        "Level         "@,
    )
}

} // verus!
