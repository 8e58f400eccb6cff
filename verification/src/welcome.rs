//! The welcome banner: a bordered box of centred text rows. Only the text of
//! each row is built here; printing it and waiting for a key are the
//! surrounding program's business.

use vstd::prelude::*;
use vstd::string::StringExecFns;
use vstd::utf8::is_ascii_chars;

verus! {

pub const VERTICAL_WALL: char = '+';

pub const HORIZONTAL_WALL: char = '-';

pub const TOP_LEFT_CORNER: char = '+';

pub const TOP_RIGHT_CORNER: char = '+';

pub const BOTTOM_LEFT_CORNER: char = '+';

pub const BOTTOM_RIGHT_CORNER: char = '+';

/// Relies on String::push: appends one character at the end of the string.
#[verifier::external_body]
fn push_char(output: &mut String, c: char)
    ensures
        final(output)@ == old(output)@.push(c),
{
    output.push(c)
}

/// `n` spaces.
pub open spec fn spaces(n: nat) -> Seq<char> {
    Seq::new(n, |i: int| ' ')
}

/// An inner banner row with no text: a wall, spaces across, a wall.
pub open spec fn empty_inner_row(width: int) -> Seq<char> {
    seq![VERTICAL_WALL] + spaces((width - 2) as nat) + seq![VERTICAL_WALL]
}

/// An inner banner row carrying `text`, centred between the walls; when the
/// free space is odd, the extra space goes right after the text.
pub open spec fn text_inner_row(text: Seq<char>, width: int) -> Seq<char> {
    let pad = width - 2 - text.len();
    let half = (pad / 2) as nat;
    if pad % 2 == 0 {
        seq![VERTICAL_WALL] + spaces(half) + text + spaces(half) + seq![VERTICAL_WALL]
    } else {
        seq![VERTICAL_WALL] + spaces(half) + text + seq![' '] + spaces(half) + seq![
            VERTICAL_WALL,
        ]
    }
}

/// Appends `count` spaces to `output`.
fn push_spaces(output: &mut String, count: usize)
    ensures
        final(output)@ == old(output)@ + spaces(count as nat),
{
    let mut i: usize = 0;
    while i < count
        invariant
            i <= count,
            output@ == old(output)@ + spaces(i as nat),
        decreases count - i,
    {
        proof {
            assert(old(output)@ + spaces((i + 1) as nat) =~= (old(output)@ + spaces(i as nat)).push(
                ' ',
            ));
        }
        push_char(output, ' ');
        i += 1;
    }
    proof {
        assert(output@ =~= old(output)@ + spaces(count as nat));
    }
}

/// One row of the welcome box between the corners: without text it is spaces
/// wall to wall; with text it is the text centred in the spaces.
pub fn get_inner_row(text: Option<&str>, width: usize) -> (row: String)
    requires
        text matches Some(t) ==> vstd::string::is_ascii(t) && t@.len() + 2 <= width,
        text is None ==> 2 <= width,
    ensures
        row@ == (match text {
            Some(t) => text_inner_row(t@, width as int),
            None => empty_inner_row(width as int),
        }),
        row@.len() == width,
{
    let mut output = String::new();
    push_char(&mut output, VERTICAL_WALL);
    match text {
        None => {
            let number_of_inner_characters = width - 2;
            push_spaces(&mut output, number_of_inner_characters);
        },
        Some(text) => {
            let text_length: usize = text.len();
            let total_space_characters: usize = width - text_length - 2;
            if total_space_characters % 2 == 0 {
                push_spaces(&mut output, total_space_characters / 2);
                output.append(text);
                push_spaces(&mut output, total_space_characters / 2);
            } else {
                push_spaces(&mut output, total_space_characters / 2);
                output.append(text);
                push_char(&mut output, ' ');
                push_spaces(&mut output, total_space_characters / 2);
            }
        },
    }
    push_char(&mut output, VERTICAL_WALL);
    proof {
        match text {
            Some(t) => {
                assert(output@ =~= text_inner_row(t@, width as int));
            },
            None => {
                assert(output@ =~= empty_inner_row(width as int));
            },
        }
    }
    output
}

/// `n` cells of horizontal wall.
pub open spec fn horizontal_wall_run(n: nat) -> Seq<char> {
    Seq::new(n, |i: int| HORIZONTAL_WALL)
}

/// The banner's top row: a corner, horizontal wall across, a corner.
pub open spec fn top_border(width: int) -> Seq<char> {
    seq![TOP_LEFT_CORNER] + horizontal_wall_run((width - 2) as nat) + seq![TOP_RIGHT_CORNER]
}

/// The banner's bottom row: as the top, with the bottom corners.
pub open spec fn bottom_border(width: int) -> Seq<char> {
    seq![BOTTOM_LEFT_CORNER] + horizontal_wall_run((width - 2) as nat) + seq![BOTTOM_RIGHT_CORNER]
}

/// Appends `count` cells of horizontal wall to `output`.
fn push_horizontal_wall(output: &mut String, count: usize)
    ensures
        final(output)@ == old(output)@ + horizontal_wall_run(count as nat),
{
    let mut i: usize = 0;
    while i < count
        invariant
            i <= count,
            output@ == old(output)@ + horizontal_wall_run(i as nat),
        decreases count - i,
    {
        proof {
            assert(old(output)@ + horizontal_wall_run((i + 1) as nat) =~= (old(output)@
                + horizontal_wall_run(i as nat)).push(HORIZONTAL_WALL));
        }
        push_char(output, HORIZONTAL_WALL);
        i += 1;
    }
    proof {
        assert(output@ =~= old(output)@ + horizontal_wall_run(count as nat));
    }
}

/// Builds one border row from its two corner characters.
fn build_border(left_corner: char, right_corner: char, width: usize) -> (row: String)
    requires
        2 <= width,
    ensures
        row@ == seq![left_corner] + horizontal_wall_run((width - 2) as nat) + seq![right_corner],
        row@.len() == width,
{
    let mut output = String::new();
    push_char(&mut output, left_corner);
    push_horizontal_wall(&mut output, width - 2);
    push_char(&mut output, right_corner);
    proof {
        assert(output@ =~= seq![left_corner] + horizontal_wall_run((width - 2) as nat) + seq![
            right_corner,
        ]);
    }
    output
}

/// The text of row `i` of a welcome banner of the given size: borders at the
/// top and bottom; between them each word on its own centred row followed by
/// a blank row, the block centred vertically, with any odd leftover blank
/// row placed right under the top border.
pub open spec fn welcome_row(words: Seq<Seq<char>>, width: int, height: int, i: int) -> Seq<char> {
    let empty_rows = height - 2 - 2 * words.len();
    let lead = 1 + empty_rows % 2 + empty_rows / 2;
    if i == 0 {
        top_border(width)
    } else if i == height - 1 {
        bottom_border(width)
    } else if i < lead {
        empty_inner_row(width)
    } else if i < lead + 2 * words.len() {
        let j = i - lead;
        if j % 2 == 0 {
            text_inner_row(words[j / 2], width)
        } else {
            empty_inner_row(width)
        }
    } else {
        empty_inner_row(width)
    }
}

/// The rows of the welcome banner, top border to bottom border, one string
/// per screen row.
pub fn welcome_rows(words: &Vec<String>, width: usize, height: usize) -> (rows: Vec<String>)
    requires
        2 <= width,
        2 + 2 * words@.len() <= height,
        forall|k: int|
            0 <= k < words@.len() ==> is_ascii_chars(#[trigger] words@[k]@) && words@[k]@.len() + 2
                <= width,
    ensures
        rows@.len() == height,
        forall|i: int|
            0 <= i < height ==> #[trigger] rows@[i]@ == welcome_row(
                words.deep_view(),
                width as int,
                height as int,
                i,
            ),
{
    let ghost wv = words.deep_view();
    let n = words.len();
    let empty_rows = height - 2 - 2 * n;
    let half = empty_rows / 2;
    let lead = 1 + empty_rows % 2 + half;

    let mut rows: Vec<String> = Vec::new();
    rows.push(build_border(TOP_LEFT_CORNER, TOP_RIGHT_CORNER, width));

    let mut filled: usize = 1;
    while filled < lead
        invariant
            1 <= filled <= lead,
            lead == 1 + empty_rows % 2 + empty_rows / 2,
            empty_rows == height - 2 - 2 * words@.len(),
            2 <= width,
            2 + 2 * words@.len() <= height,
            wv == words.deep_view(),
            rows@.len() == filled,
            forall|i: int|
                0 <= i < filled ==> #[trigger] rows@[i]@ == welcome_row(
                    wv,
                    width as int,
                    height as int,
                    i,
                ),
        decreases lead - filled,
    {
        rows.push(get_inner_row(None, width));
        filled += 1;
    }

    let mut word_index: usize = 0;
    while word_index < n
        invariant
            0 <= word_index <= n,
            n == words@.len(),
            lead == 1 + empty_rows % 2 + empty_rows / 2,
            empty_rows == height - 2 - 2 * words@.len(),
            2 <= width,
            2 + 2 * words@.len() <= height,
            forall|k: int|
                0 <= k < words@.len() ==> is_ascii_chars(#[trigger] words@[k]@) && words@[k]@.len()
                    + 2 <= width,
            wv == words.deep_view(),
            rows@.len() == lead + 2 * word_index,
            forall|i: int|
                0 <= i < rows@.len() ==> #[trigger] rows@[i]@ == welcome_row(
                    wv,
                    width as int,
                    height as int,
                    i,
                ),
        decreases n - word_index,
    {
        let word = &words[word_index];
        rows.push(get_inner_row(Some(word.as_str()), width));
        rows.push(get_inner_row(None, width));
        word_index += 1;
    }

    let mut trailing: usize = 0;
    while trailing < half
        invariant
            0 <= trailing <= half,
            half == empty_rows / 2,
            lead == 1 + empty_rows % 2 + empty_rows / 2,
            empty_rows == height - 2 - 2 * words@.len(),
            2 <= width,
            2 + 2 * words@.len() <= height,
            wv == words.deep_view(),
            rows@.len() == lead + 2 * words@.len() + trailing,
            forall|i: int|
                0 <= i < rows@.len() ==> #[trigger] rows@[i]@ == welcome_row(
                    wv,
                    width as int,
                    height as int,
                    i,
                ),
        decreases half - trailing,
    {
        rows.push(get_inner_row(None, width));
        trailing += 1;
    }

    rows.push(build_border(BOTTOM_LEFT_CORNER, BOTTOM_RIGHT_CORNER, width));
    rows
}

} // verus!
