//! What the player types: a command word, or the number of an item of the
//! shop.
use vstd::prelude::*;

verus! {

/// A character that counts as white space at the ends of a line: the
/// characters of Unicode's property `White_Space`.
pub open spec fn is_space(c: char) -> bool {
    let n = c as u32;
    ||| 0x09 <= n <= 0x0d
    ||| n == 0x20
    ||| n == 0x85
    ||| n == 0xa0
    ||| n == 0x1680
    ||| 0x2000 <= n <= 0x200a
    ||| n == 0x2028
    ||| n == 0x2029
    ||| n == 0x202f
    ||| n == 0x205f
    ||| n == 0x3000
}

/// The line without the white space in front.
pub open spec fn trim_front(s: Seq<char>) -> Seq<char>
    decreases s.len(),
{
    if s.len() > 0 && is_space(s[0]) {
        trim_front(s.drop_first())
    } else {
        s
    }
}

/// The line without the white space at the end.
pub open spec fn trim_back(s: Seq<char>) -> Seq<char>
    decreases s.len(),
{
    if s.len() > 0 && is_space(s.last()) {
        trim_back(s.drop_last())
    } else {
        s
    }
}

/// A capital letter of ASCII as the small one; any other character as it
/// is.
pub open spec fn lower(c: char) -> char {
    if 0x41 <= c as u32 <= 0x5a {
        ((c as u32 + 32) as u8) as char
    } else {
        c
    }
}

/// The line as a command is read from it: without white space at either
/// end, capital letters of ASCII made small.
pub open spec fn command_text(line: Seq<char>) -> Seq<char> {
    let t = trim_back(trim_front(line));
    Seq::new(t.len(), |i: int| lower(t[i]))
}

/// What the player asks for outside the shop.
#[derive(Clone, Copy, Debug, PartialEq, Eq, Structural)]
pub enum Command {
    /// An empty line: gather by hand.
    Click,
    /// Show what is owned.
    Inventory,
    /// Show the shop and ask for the number of an item.
    Shop,
    /// Save the game.
    Save,
    /// Save the game and leave.
    Exit,
    /// Anything else.
    Unknown,
}

/// The command that a line stands for.
pub open spec fn command_of(line: Seq<char>) -> Command {
    let text = command_text(line);
    if text.len() == 0 {
        Command::Click
    } else if text == "inventory"@ {
        Command::Inventory
    } else if text == "shop"@ {
        Command::Shop
    } else if text == "save"@ {
        Command::Save
    } else if text == "exit"@ {
        Command::Exit
    } else {
        Command::Unknown
    }
}

/// A decimal digit of ASCII.
pub open spec fn is_digit(c: char) -> bool {
    0x30 <= c as u32 <= 0x39
}

/// The number that a run of decimal digits writes.
pub open spec fn digits_value(s: Seq<char>) -> nat
    decreases s.len(),
{
    if s.len() == 0 {
        0
    } else {
        (digits_value(s.drop_last()) * 10 + (s.last() as u32 - 0x30)) as nat
    }
}

/// The text without the plus sign in front, where it has one.
pub open spec fn without_sign(text: Seq<char>) -> Seq<char> {
    if text.len() > 0 && text[0] == '+' {
        text.drop_first()
    } else {
        text
    }
}

/// The number that a text writes: decimal digits, at least one, with or
/// without a plus sign in front, no more than a `usize` holds. Any other
/// text writes none.
pub open spec fn number_of(text: Seq<char>) -> Option<nat> {
    let digits = without_sign(text);
    if digits.len() > 0 && (forall|i: int| 0 <= i < digits.len() ==> is_digit(#[trigger] digits[i]))
        && digits_value(digits) <= usize::MAX {
        Some(digits_value(digits))
    } else {
        None
    }
}

/// The item of the shop that a number chooses.
#[derive(Clone, Copy, Debug, PartialEq, Eq, Structural)]
pub enum Selection {
    /// The stackable item at this place, counted from zero.
    Item(usize),
    /// The one-time item at this place, counted from zero.
    ClickerItem(usize),
    /// The shop shows no such number.
    Invalid,
}

/// The item that the number `number` of the shop's list chooses, where the
/// list shows `num_items` stackable items first and `total` items in all.
pub open spec fn selection_of(number: nat, num_items: nat, total: nat) -> Selection {
    if number == 0 || number > total {
        Selection::Invalid
    } else if number > num_items {
        Selection::ClickerItem((number - num_items - 1) as usize)
    } else {
        Selection::Item((number - 1) as usize)
    }
}

/// Tells whether `c` counts as white space.
pub fn space(c: char) -> (b: bool)
    ensures
        b == is_space(c),
{
    let n: u32 = c as u32;
    (0x09 <= n && n <= 0x0d) || n == 0x20 || n == 0x85 || n == 0xa0 || n == 0x1680 || (0x2000
        <= n && n <= 0x200a) || n == 0x2028 || n == 0x2029 || n == 0x202f || n == 0x205f || n
        == 0x3000
}

/// Makes a capital letter of ASCII small.
pub fn to_lower(c: char) -> (l: char)
    ensures
        l == lower(c),
{
    let n: u32 = c as u32;
    if 0x41 <= n && n <= 0x5a {
        ((n + 32) as u8) as char
    } else {
        c
    }
}

/// Trimming in front leaves the part of the line from its first character
/// that is no white space.
proof fn lemma_trim_front(s: Seq<char>, start: int)
    requires
        0 <= start <= s.len(),
        forall|i: int| 0 <= i < start ==> is_space(#[trigger] s[i]),
        start < s.len() ==> !is_space(s[start]),
    ensures
        trim_front(s) == s.subrange(start, s.len() as int),
    decreases start,
{
    if start == 0 {
        assert(s.subrange(0, s.len() as int) =~= s);
    } else {
        let rest = s.drop_first();
        assert forall|i: int| 0 <= i < start - 1 implies is_space(#[trigger] rest[i]) by {
            assert(rest[i] == s[i + 1]);
        }
        lemma_trim_front(rest, start - 1);
        assert(rest.subrange(start - 1, rest.len() as int) =~= s.subrange(
            start,
            s.len() as int,
        ));
    }
}

/// Trimming at the end leaves the part of the line up to its last character
/// that is no white space.
proof fn lemma_trim_back(s: Seq<char>, end: int)
    requires
        0 <= end <= s.len(),
        forall|i: int| end <= i < s.len() ==> is_space(#[trigger] s[i]),
        end > 0 ==> !is_space(s[end - 1]),
    ensures
        trim_back(s) == s.subrange(0, end),
    decreases s.len() - end,
{
    if end == s.len() {
        assert(s.subrange(0, end) =~= s);
    } else {
        let rest = s.drop_last();
        lemma_trim_back(rest, end);
        assert(rest.subrange(0, end) =~= s.subrange(0, end));
    }
}

/// The line as a command is read from it.
pub fn normalize(line: &Vec<char>) -> (text: Vec<char>)
    ensures
        text@ == command_text(line@),
{
    let n = line.len();
    let mut start: usize = 0;
    while start < n && space(line[start])
        invariant
            start <= n,
            n == line@.len(),
            forall|i: int| 0 <= i < start ==> is_space(#[trigger] line@[i]),
        decreases n - start,
    {
        start = start + 1;
    }
    let mut end: usize = n;
    while end > start && space(line[end - 1])
        invariant
            start <= end <= n,
            n == line@.len(),
            forall|i: int| end <= i < n ==> is_space(#[trigger] line@[i]),
        decreases end,
    {
        end = end - 1;
    }
    proof {
        lemma_trim_front(line@, start as int);
        let front = line@.subrange(start as int, n as int);
        assert forall|i: int| end - start <= i < front.len() implies is_space(
            #[trigger] front[i],
        ) by {
            assert(front[i] == line@[i + start]);
        }
        lemma_trim_back(front, end - start);
        assert(front.subrange(0, end - start) =~= line@.subrange(start as int, end as int));
    }
    let mut text: Vec<char> = Vec::new();
    let mut i: usize = start;
    while i < end
        invariant
            start <= i <= end <= n,
            n == line@.len(),
            text@.len() == i - start,
            forall|j: int| 0 <= j < i - start ==> #[trigger] text@[j] == lower(line@[start + j]),
        decreases end - i,
    {
        text.push(to_lower(line[i]));
        i = i + 1;
    }
    assert(text@ =~= command_text(line@));
    text
}

/// Tells whether `text` is the word `word`.
pub fn is_word(text: &Vec<char>, word: &str) -> (b: bool)
    ensures
        b == (text@ == word@),
{
    let n = word.unicode_len();
    if text.len() != n {
        return false;
    }
    let mut i: usize = 0;
    while i < n
        invariant
            i <= n,
            n == word@.len(),
            n == text@.len(),
            forall|j: int| 0 <= j < i ==> text@[j] == word@[j],
        decreases n - i,
    {
        if text[i] != word.get_char(i) {
            return false;
        }
        i = i + 1;
    }
    assert(text@ =~= word@);
    true
}

/// Reads the command that a line stands for.
pub fn read_command(line: &Vec<char>) -> (command: Command)
    ensures
        command == command_of(line@),
{
    let text = normalize(line);
    if text.len() == 0 {
        Command::Click
    } else if is_word(&text, "inventory") {
        Command::Inventory
    } else if is_word(&text, "shop") {
        Command::Shop
    } else if is_word(&text, "save") {
        Command::Save
    } else if is_word(&text, "exit") {
        Command::Exit
    } else {
        Command::Unknown
    }
}

/// A run of digits writes no less than any of its beginnings.
proof fn lemma_digits_grow(s: Seq<char>, k: int)
    requires
        0 <= k <= s.len(),
        forall|i: int| 0 <= i < s.len() ==> is_digit(#[trigger] s[i]),
    ensures
        digits_value(s.subrange(0, k)) <= digits_value(s),
    decreases s.len() - k,
{
    if k == s.len() {
        assert(s.subrange(0, k) =~= s);
    } else {
        let rest = s.drop_last();
        lemma_digits_grow(rest, k);
        assert(rest.subrange(0, k) =~= s.subrange(0, k));
        assert(is_digit(s[s.len() - 1]));
    }
}

/// Reads the number that a text writes.
pub fn parse_number(text: &Vec<char>) -> (number: Option<usize>)
    ensures
        number_of(text@) == match number {
            Some(n) => Some(n as nat),
            None => None::<nat>,
        },
{
    let n = text.len();
    let first: usize = if n > 0 && text[0] == '+' {
        1
    } else {
        0
    };
    let ghost digits = text@.subrange(first as int, n as int);
    proof {
        if first == 1 {
            assert(digits =~= text@.drop_first());
        } else {
            assert(digits =~= text@);
        }
    }
    if first == n {
        return None;
    }
    let mut value: usize = 0;
    let mut i: usize = first;
    while i < n
        invariant
            first <= i <= n,
            n == text@.len(),
            digits == text@.subrange(first as int, n as int),
            digits == without_sign(text@),
            forall|j: int| 0 <= j < i - first ==> is_digit(#[trigger] digits[j]),
            value == digits_value(digits.subrange(0, i - first)),
        decreases n - i,
    {
        let c: u32 = text[i] as u32;
        if c < 0x30 || c > 0x39 {
            assert(!is_digit(digits[i - first]));
            return None;
        }
        proof {
            assert(digits[i - first] == text@[i as int]);
            assert(digits.subrange(0, i - first + 1).drop_last() =~= digits.subrange(
                0,
                i - first,
            ));
        }
        let d: usize = (c - 0x30) as usize;
        let next = match value.checked_mul(10) {
            Some(tens) => tens.checked_add(d),
            None => None,
        };
        match next {
            Some(v) => {
                value = v;
            },
            None => {
                proof {
                    let ghost prefix = digits.subrange(0, i - first + 1);
                    assert(digits_value(prefix) > usize::MAX);
                    if forall|j: int| 0 <= j < digits.len() ==> is_digit(#[trigger] digits[j]) {
                        lemma_digits_grow(digits, i - first + 1);
                    }
                }
                return None;
            },
        }
        i = i + 1;
    }
    proof {
        assert(digits.subrange(0, n - first) =~= digits);
    }
    Some(value)
}

/// Finds the item that a number of the shop's list chooses. A number that
/// the list shows chooses an item that is there.
pub fn select(number: usize, num_items: usize, total: usize) -> (selection: Selection)
    ensures
        selection == selection_of(number as nat, num_items as nat, total as nat),
        selection matches Selection::Item(i) ==> i < num_items && i + 1 == number,
        selection matches Selection::ClickerItem(i) ==> num_items + i + 1 == number,
{
    if number == 0 || number > total {
        Selection::Invalid
    } else if number > num_items {
        Selection::ClickerItem(number - num_items - 1)
    } else {
        Selection::Item(number - 1)
    }
}

} // verus!
