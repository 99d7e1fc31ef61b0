//! Reading what the operating system tells of a process: the processors it may run on, and its
//! status text.

use crate::text::{decimal, law_decimal_reads_back, worth};
use vstd::prelude::*;

verus! {

/// The first processor that is allowed, or minus one. `set` says of each processor whether it is.
pub fn get_current_cpu(set: &Vec<bool>) -> (r: i32)
    requires
        set@.len() <= i32::MAX,
    ensures
        r == -1 ==> forall|i: int| 0 <= i < set@.len() ==> !#[trigger] set@[i],
        r != -1 ==> 0 <= r < set@.len() && set@[r as int] && forall|i: int|
            0 <= i < r ==> !#[trigger] set@[i],
        r == -1 <==> allowed(set@, set@.len()).len() == 0,
        r != -1 ==> r == allowed(set@, set@.len())[0],
{
    let mut index: usize = 0;
    while index < set.len()
        invariant
            index <= set@.len() <= i32::MAX,
            forall|i: int| 0 <= i < index ==> !#[trigger] set@[i],
        decreases set@.len() - index,
    {
        if set[index] {
            proof {
                law_first_allowed_is_listed_first(set@, index as i32);
            }
            return index as i32;
        }
        index = index + 1;
    }
    proof {
        law_first_allowed_is_listed_first(set@, 0);
    }
    -1
}

/// The numbers of the first `count` processors that are allowed, in order.
pub open spec fn allowed(set: Seq<bool>, count: nat) -> Seq<i32>
    decreases count,
{
    if count == 0 {
        Seq::empty()
    } else if set[count - 1] {
        allowed(set, (count - 1) as nat).push((count - 1) as i32)
    } else {
        allowed(set, (count - 1) as nat)
    }
}

/// The processors that are allowed, in order.
pub fn allowed_cpus(set: &Vec<bool>) -> (r: Vec<i32>)
    requires
        set@.len() <= i32::MAX,
    ensures
        r@ == allowed(set@, set@.len()),
{
    let mut list: Vec<i32> = Vec::new();
    let mut index: usize = 0;
    while index < set.len()
        invariant
            index <= set@.len() <= i32::MAX,
            list@ == allowed(set@, index as nat),
        decreases set@.len() - index,
    {
        if set[index] {
            list.push(index as i32);
        }
        index = index + 1;
    }
    list
}

/// A processor is among those listed exactly if it is allowed.
pub proof fn law_allowed_are_listed(set: Seq<bool>, count: nat, cpu: i32)
    requires
        count <= set.len() <= i32::MAX,
    ensures
        allowed(set, count).contains(cpu) <==> 0 <= cpu < count && set[cpu as int],
    decreases count,
{
    if count > 0 {
        let less = (count - 1) as nat;
        law_allowed_are_listed(set, less, cpu);
        if set[less as int] {
            let rest = allowed(set, less);
            let list = rest.push(less as i32);
            if cpu == less {
                assert(list[rest.len() as int] == cpu);
            } else if rest.contains(cpu) {
                let i = choose|i: int| 0 <= i < rest.len() && rest[i] == cpu;
                assert(list[i] == cpu);
            } else {
                assert(!list.contains(cpu));
            }
        }
    }
}

/// A character that separates words, by its Unicode property White_Space.
pub open spec fn is_space(c: char) -> bool {
    let n = c as u32;
    ||| 9 <= n <= 13
    ||| n == 0x20
    ||| n == 0x85
    ||| n == 0xA0
    ||| n == 0x1680
    ||| 0x2000 <= n <= 0x200A
    ||| n == 0x2028
    ||| n == 0x2029
    ||| n == 0x202F
    ||| n == 0x205F
    ||| n == 0x3000
}

fn space(c: char) -> (r: bool)
    ensures
        r == is_space(c),
{
    let n: u32 = c as u32;
    9 <= n && n <= 13 || n == 0x20 || n == 0x85 || n == 0xA0 || n == 0x1680 || 0x2000 <= n && n
        <= 0x200A || n == 0x2028 || n == 0x2029 || n == 0x202F || n == 0x205F || n == 0x3000
}

/// Where the line that begins at `from` ends: at the next line feed, or at the end of the text.
pub open spec fn line_end(text: Seq<char>, from: int) -> int
    decreases text.len() - from,
{
    if from < 0 || from >= text.len() || text[from] == '\n' {
        from
    } else {
        line_end(text, from + 1)
    }
}

/// The text begins with `prefix` at `from`, and the line does not end before it does.
pub open spec fn starts_at(text: Seq<char>, from: int, prefix: Seq<char>) -> bool {
    from + prefix.len() <= line_end(text, from) && text.subrange(from, from + prefix.len())
        == prefix
}

/// Where the first line that begins with `prefix` begins, of those from `from` on, where a line
/// begins.
pub open spec fn find_line(text: Seq<char>, from: int, prefix: Seq<char>) -> Option<int>
    decreases text.len() - from,
{
    if from < 0 || from >= text.len() {
        None
    } else if starts_at(text, from, prefix) {
        Some(from)
    } else {
        let end = line_end(text, from);
        if from <= end < text.len() {
            find_line(text, end + 1, prefix)
        } else {
            None
        }
    }
}

fn end_of_line(text: &Vec<char>, from: usize) -> (r: usize)
    requires
        from <= text@.len(),
    ensures
        r == line_end(text@, from as int),
        from <= r <= text@.len(),
{
    let mut end: usize = from;
    while end < text.len() && text[end] != '\n'
        invariant
            from <= end <= text@.len(),
            line_end(text@, from as int) == line_end(text@, end as int),
        decreases text@.len() - end,
    {
        end = end + 1;
    }
    end
}

fn begins(text: &Vec<char>, from: usize, prefix: &Vec<char>) -> (r: bool)
    requires
        from <= text@.len(),
    ensures
        r == starts_at(text@, from as int, prefix@),
{
    let end = end_of_line(text, from);
    if prefix.len() > end - from {
        return false;
    }
    let mut index: usize = 0;
    while index < prefix.len()
        invariant
            index <= prefix@.len() <= end - from,
            from <= end <= text@.len(),
            end == line_end(text@, from as int),
            forall|i: int| 0 <= i < index ==> #[trigger] text@[from + i] == prefix@[i],
        decreases prefix@.len() - index,
    {
        if text[from + index] != prefix[index] {
            assert(text@.subrange(from as int, from + prefix@.len())[index as int]
                != prefix@[index as int]);
            return false;
        }
        index = index + 1;
    }
    assert forall|i: int| 0 <= i < prefix@.len() implies #[trigger] text@.subrange(
        from as int,
        from + prefix@.len(),
    )[i] == prefix@[i] by {
        assert(text@[from + i] == prefix@[i]);
    }
    assert(text@.subrange(from as int, from + prefix@.len()) =~= prefix@);
    true
}

/// Finds the first line that begins with `prefix`; returns where it begins.
pub fn line_with(text: &Vec<char>, prefix: &Vec<char>) -> (r: Option<usize>)
    requires
        text@.len() < usize::MAX,
    ensures
        r is Some <==> find_line(text@, 0, prefix@) is Some,
        r matches Some(at) ==> find_line(text@, 0, prefix@) == Some(at as int) && at < text@.len(),
{
    let mut from: usize = 0;
    while from < text.len()
        invariant
            from <= text@.len() + 1,
            text@.len() < usize::MAX,
            find_line(text@, 0, prefix@) == find_line(text@, from as int, prefix@),
        decreases text@.len() + 1 - from,
    {
        if begins(text, from, prefix) {
            return Some(from);
        }
        from = end_of_line(text, from) + 1;
    }
    None
}

/// The line that begins at `from`, without the line feed and without a carriage return before it.
pub open spec fn line_at(text: Seq<char>, from: int) -> Seq<char> {
    let end = line_end(text, from);
    if end < text.len() && end > from && text[end - 1] == '\r' {
        text.subrange(from, end - 1)
    } else {
        text.subrange(from, end)
    }
}

fn copy_line(text: &Vec<char>, from: usize) -> (r: Vec<char>)
    requires
        from <= text@.len(),
    ensures
        r@ == line_at(text@, from as int),
{
    let mut end = end_of_line(text, from);
    if end < text.len() && end > from && text[end - 1] == '\r' {
        end = end - 1;
    }
    let mut line: Vec<char> = Vec::new();
    let mut index: usize = from;
    while index < end
        invariant
            from <= index <= end <= text@.len(),
            line@ == text@.subrange(from as int, index as int),
        decreases end - index,
    {
        line.push(text[index]);
        index = index + 1;
        assert(line@ =~= text@.subrange(from as int, index as int));
    }
    line
}

/// What a line that says the state of a process begins with.
pub open spec fn state_prefix() -> Seq<char> {
    seq!['S', 't', 'a', 't', 'e', ':']
}

/// What a line that says the number of threads begins with.
pub open spec fn threads_prefix() -> Seq<char> {
    seq!['T', 'h', 'r', 'e', 'a', 'd', 's', ':']
}

/// The line of a status text that says the state of the process, if there is one.
pub fn get_process_state(status: &Vec<char>) -> (r: Option<Vec<char>>)
    requires
        status@.len() < usize::MAX,
    ensures
        match find_line(status@, 0, state_prefix()) {
            Some(at) => r is Some && r->0@ == line_at(status@, at),
            None => r is None,
        },
{
    let prefix = vec!['S', 't', 'a', 't', 'e', ':'];
    assert(prefix@ =~= state_prefix());
    match line_with(status, &prefix) {
        Some(at) => Some(copy_line(status, at)),
        None => None,
    }
}

/// The words of a line: its longest runs of characters that do not separate words.
pub open spec fn words(line: Seq<char>) -> Seq<Seq<char>>
    decreases line.len(),
{
    if line.len() == 0 {
        Seq::empty()
    } else if is_space(line.last()) {
        words(line.drop_last())
    } else {
        let before = line.drop_last();
        if before.len() == 0 || is_space(before.last()) {
            words(before).push(seq![line.last()])
        } else {
            let so_far = words(before);
            so_far.drop_last().push(so_far.last().push(line.last()))
        }
    }
}

/// The number that a word of digits stands for.
pub open spec fn number_of(digits: Seq<char>) -> nat
    decreases digits.len(),
{
    if digits.len() == 0 {
        0
    } else {
        number_of(digits.drop_last()) * 10 + (digits.last() as u32 - 48) as nat
    }
}

/// The digits of a word, without a plus sign in front.
pub open spec fn digits_of(word: Seq<char>) -> Seq<char> {
    if word.len() > 1 && word[0] == '+' {
        word.drop_first()
    } else {
        word
    }
}

/// The number that a word stands for, if it consists of decimal digits, perhaps with a plus sign in
/// front, and the number is not too large.
pub open spec fn parsed(word: Seq<char>) -> Option<nat> {
    let digits = digits_of(word);
    if digits.len() > 0 && (forall|i: int|
        0 <= i < digits.len() ==> 48 <= (#[trigger] digits[i]) as u32 <= 57) && number_of(digits)
        <= usize::MAX {
        Some(number_of(digits))
    } else {
        None
    }
}

/// The number of threads that a status text says: the second word of the line that begins with the
/// word for it, or zero where there is none.
pub open spec fn threads_in(status: Seq<char>) -> nat {
    match find_line(status, 0, threads_prefix()) {
        Some(at) => {
            let found = words(line_at(status, at));
            if found.len() > 1 {
                match parsed(found[1]) {
                    Some(count) => count,
                    None => 0,
                }
            } else {
                0
            }
        },
        None => 0,
    }
}

fn split_words(line: &Vec<char>) -> (r: Vec<Vec<char>>)
    ensures
        r@.len() == words(line@).len(),
        forall|i: int| 0 <= i < r@.len() ==> (#[trigger] r@[i])@ == words(line@)[i],
{
    let mut list: Vec<Vec<char>> = Vec::new();
    let mut index: usize = 0;
    let mut inside = false;
    assert(line@.take(0) =~= Seq::<char>::empty());
    while index < line.len()
        invariant
            index <= line@.len(),
            list@.len() == words(line@.take(index as int)).len(),
            inside == (index > 0 && !is_space(line@[index - 1])),
            inside ==> list@.len() > 0,
            forall|i: int|
                0 <= i < list@.len() ==> (#[trigger] list@[i])@ == words(
                    line@.take(index as int),
                )[i],
        decreases line@.len() - index,
    {
        let c = line[index];
        let ghost more = line@.take(index + 1);
        let ghost so_far = words(line@.take(index as int));
        assert(more.drop_last() =~= line@.take(index as int));
        assert(more.last() == c);
        if space(c) {
            inside = false;
        } else if inside {
            let mut word = match list.pop() {
                Some(word) => word,
                None => Vec::new(),
            };
            word.push(c);
            list.push(word);
            assert(words(more) == so_far.drop_last().push(so_far.last().push(c)));
        } else {
            let mut word: Vec<char> = Vec::new();
            word.push(c);
            assert(word@ =~= seq![c]);
            list.push(word);
            inside = true;
            assert(words(more) == so_far.push(seq![c]));
        }
        index = index + 1;
    }
    assert(line@.take(index as int) =~= line@);
    list
}

proof fn lemma_number_grows(digits: Seq<char>, count: int)
    requires
        0 <= count <= digits.len(),
    ensures
        number_of(digits.take(count)) <= number_of(digits),
    decreases digits.len(),
{
    if count < digits.len() {
        lemma_number_grows(digits.drop_last(), count);
        assert(digits.drop_last().take(count) =~= digits.take(count));
    } else {
        assert(digits.take(count) =~= digits);
    }
}

fn parse_number(word: &Vec<char>) -> (r: Option<usize>)
    ensures
        r is Some <==> parsed(word@) is Some,
        r matches Some(count) ==> parsed(word@) == Some(count as nat),
{
    let start: usize = if word.len() > 1 && word[0] == '+' {
        1
    } else {
        0
    };
    let ghost digits = digits_of(word@);
    assert(digits =~= word@.skip(start as int));
    if word.len() == 0 {
        return None;
    }
    let mut value: usize = 0;
    let mut index: usize = start;
    assert(digits.take(0) =~= Seq::<char>::empty());
    while index < word.len()
        invariant
            start <= index <= word@.len(),
            start <= 1,
            digits == word@.skip(start as int),
            digits == digits_of(word@),
            value == number_of(digits.take(index - start)),
            forall|i: int|
                0 <= i < index - start ==> 48 <= (#[trigger] digits[i]) as u32 <= 57,
        decreases word@.len() - index,
    {
        let n: u32 = word[index] as u32;
        assert(digits[index - start] == word@[index as int]);
        if n < 48 || n > 57 {
            return None;
        }
        let ghost more = digits.take(index - start + 1);
        proof {
            assert(more.drop_last() =~= digits.take(index - start));
            assert(number_of(more) == value * 10 + (n - 48));
            lemma_number_grows(digits, index - start + 1);
        }
        let next = match value.checked_mul(10) {
            Some(tens) => tens.checked_add((n - 48) as usize),
            None => None,
        };
        match next {
            Some(sum) => {
                value = sum;
            },
            None => {
                return None;
            },
        }
        index = index + 1;
    }
    assert(digits.take(index - start) =~= digits);
    Some(value)
}

/// The number of threads that a status text says, or zero.
pub fn get_thread_count(status: &Vec<char>) -> (r: usize)
    requires
        status@.len() < usize::MAX,
    ensures
        r == threads_in(status@),
{
    let prefix = vec!['T', 'h', 'r', 'e', 'a', 'd', 's', ':'];
    assert(prefix@ =~= threads_prefix());
    match line_with(status, &prefix) {
        Some(at) => {
            let line = copy_line(status, at);
            let found = split_words(&line);
            if found.len() > 1 {
                match parse_number(&found[1]) {
                    Some(count) => count,
                    None => 0,
                }
            } else {
                0
            }
        },
        None => 0,
    }
}

/// The processors are listed in order, each once.
pub proof fn law_allowed_are_in_order(set: Seq<bool>, count: nat)
    requires
        count <= set.len() <= i32::MAX,
    ensures
        forall|i: int, j: int|
            0 <= i < j < allowed(set, count).len() ==> #[trigger] allowed(set, count)[i]
                < #[trigger] allowed(set, count)[j],
        forall|i: int|
            0 <= i < allowed(set, count).len() ==> 0 <= #[trigger] allowed(set, count)[i] < count,
    decreases count,
{
    let list = allowed(set, count);
    if count > 0 {
        let rest = allowed(set, (count - 1) as nat);
        law_allowed_are_in_order(set, (count - 1) as nat);
        assert forall|i: int| 0 <= i < list.len() implies 0 <= #[trigger] list[i] < count by {
            if i < rest.len() {
                assert(list[i] == rest[i]);
            }
        }
        assert forall|i: int, j: int| 0 <= i < j < list.len() implies #[trigger] list[i]
            < #[trigger] list[j] by {
            assert(list[i] == rest[i]);
            if j < rest.len() {
                assert(list[j] == rest[j]);
            }
        }
    }
}

/// The first processor that is allowed is the first of those listed, and if none is allowed none is
/// listed.
pub proof fn law_first_allowed_is_listed_first(set: Seq<bool>, cpu: i32)
    requires
        set.len() <= i32::MAX,
    ensures
        ({
            let list = allowed(set, set.len());
            let none = forall|i: int| 0 <= i < set.len() ==> !#[trigger] set[i];
            let first = 0 <= cpu < set.len() && set[cpu as int] && forall|i: int|
                0 <= i < cpu ==> !#[trigger] set[i];
            &&& none <==> list.len() == 0
            &&& first <==> list.len() > 0 && list[0] == cpu
        }),
{
    let list = allowed(set, set.len());
    law_allowed_are_in_order(set, set.len());
    law_allowed_are_listed(set, set.len(), cpu);
    if list.len() > 0 {
        let head = list[0];
        assert(list.contains(head));
        law_allowed_are_listed(set, set.len(), head);
        assert(set[head as int]);
        assert forall|i: int| 0 <= i < head implies !#[trigger] set[i] by {
            law_allowed_are_listed(set, set.len(), i as i32);
            if set[i] {
                let at = choose|k: int| 0 <= k < list.len() && list[k] == i as i32;
                assert(list[at] == i);
                if at > 0 {
                    assert(list[0] < list[at]);
                }
            }
        }
    } else {
        assert forall|i: int| 0 <= i < set.len() implies !#[trigger] set[i] by {
            law_allowed_are_listed(set, set.len(), i as i32);
        }
    }
}

/// A line goes on up to the next line feed, or to the end of the text, and has none in it.
pub proof fn law_line_ends(text: Seq<char>, from: int)
    requires
        0 <= from <= text.len(),
    ensures
        from <= line_end(text, from) <= text.len(),
        forall|i: int| from <= i < line_end(text, from) ==> #[trigger] text[i] != '\n',
        line_end(text, from) < text.len() ==> text[line_end(text, from)] == '\n',
    decreases text.len() - from,
{
    if from < text.len() && text[from] != '\n' {
        law_line_ends(text, from + 1);
    }
}

/// A line begins here: at the beginning of the text, or behind a line feed.
pub open spec fn begins_line(text: Seq<char>, at: int) -> bool {
    0 <= at < text.len() && (at == 0 || text[at - 1] == '\n')
}

/// The characters of `prefix` stand in the text from here on.
pub open spec fn stands_at(text: Seq<char>, at: int, prefix: Seq<char>) -> bool {
    at + prefix.len() <= text.len() && forall|i: int|
        0 <= i < prefix.len() ==> text[at + i] == #[trigger] prefix[i]
}

proof fn lemma_starts_at(text: Seq<char>, at: int, prefix: Seq<char>)
    requires
        0 <= at < text.len(),
        !prefix.contains('\n'),
    ensures
        starts_at(text, at, prefix) <==> stands_at(text, at, prefix),
{
    law_line_ends(text, at);
    let end = line_end(text, at);
    if starts_at(text, at, prefix) {
        assert forall|i: int| 0 <= i < prefix.len() implies text[at + i]
            == #[trigger] prefix[i] by {
            assert(text.subrange(at, at + prefix.len())[i] == prefix[i]);
        }
    }
    if stands_at(text, at, prefix) {
        if at + prefix.len() > end {
            assert(text[at + (end - at)] == prefix[end - at]);
            assert(prefix.contains('\n'));
        }
        assert(text.subrange(at, at + prefix.len()) =~= prefix);
    }
}

/// What is found is the first line that begins with the characters that are looked for: a line
/// begins there, the characters stand there, and no line before it begins with them; and if nothing
/// is found no line does.
pub proof fn law_first_line_is_found(text: Seq<char>, from: int, prefix: Seq<char>)
    requires
        begins_line(text, from),
        !prefix.contains('\n'),
    ensures
        match find_line(text, from, prefix) {
            Some(at) => {
                &&& from <= at
                &&& begins_line(text, at)
                &&& stands_at(text, at, prefix)
                &&& forall|i: int|
                    from <= i < at && #[trigger] begins_line(text, i) ==> !stands_at(
                        text,
                        i,
                        prefix,
                    )
            },
            None => forall|i: int|
                from <= i && #[trigger] begins_line(text, i) ==> !stands_at(text, i, prefix),
        },
    decreases text.len() - from,
{
    lemma_starts_at(text, from, prefix);
    law_line_ends(text, from);
    let end = line_end(text, from);
    if !starts_at(text, from, prefix) {
        assert forall|i: int| from < i <= end implies !(#[trigger] begins_line(text, i)) by {
            assert(text[i - 1] != '\n');
        }
        if end + 1 < text.len() {
            assert(begins_line(text, end + 1));
            law_first_line_is_found(text, end + 1, prefix);
        } else if end < text.len() {
            assert(find_line(text, end + 1, prefix) is None);
        }
    }
}

/// A line without its end: it holds what stands in the text from where it begins, no line feed, and
/// what follows it there is a line feed, perhaps behind a carriage return, or nothing.
pub proof fn law_line_without_its_end(text: Seq<char>, at: int)
    requires
        0 <= at <= text.len(),
    ensures
        ({
            let line = line_at(text, at);
            let end = at + line.len();
            &&& end <= text.len()
            &&& stands_at(text, at, line)
            &&& !line.contains('\n')
            &&& {
                ||| end == text.len()
                ||| text[end] == '\n'
                ||| end + 1 < text.len() && text[end] == '\r' && text[end + 1] == '\n'
            }
            &&& end < text.len() && text[end] == '\n' ==> line.len() == 0 || line.last() != '\r'
        }),
{
    law_line_ends(text, at);
}

/// Among the characters of ASCII exactly the space and those from the tabulator to the carriage
/// return separate words.
pub proof fn law_ascii_spaces(c: char)
    requires
        (c as u32) < 128,
    ensures
        is_space(c) <==> c == ' ' || '\t' <= c <= '\r',
{
}

/// A word: at least one character, and none that separates words.
pub open spec fn is_word(word: Seq<char>) -> bool {
    word.len() > 0 && forall|i: int| 0 <= i < word.len() ==> !is_space(#[trigger] word[i])
}

/// What the words of a line are: none at first; a character that separates words adds none; and a
/// word that follows such a character, or stands at the beginning, is one more, whole.
pub proof fn law_words(line: Seq<char>, c: char, word: Seq<char>)
    requires
        is_space(c),
        is_word(word),
    ensures
        words(Seq::empty()) == Seq::<Seq<char>>::empty(),
        words(line.push(c)) == words(line),
        line.len() == 0 || is_space(line.last()) ==> words(line + word) == words(line).push(word),
    decreases word.len(),
{
    assert(line.push(c).drop_last() =~= line);
    if line.len() == 0 || is_space(line.last()) {
        let last = word.last();
        let front = word.drop_last();
        let whole = line + word;
        assert(whole.last() == last);
        assert(whole.drop_last() =~= line + front);
        assert(!is_space(word[word.len() - 1]));
        if front.len() == 0 {
            assert(line + front =~= line);
            assert(word =~= seq![last]);
        } else {
            assert forall|i: int| 0 <= i < front.len() implies !is_space(#[trigger] front[i]) by {
                assert(front[i] == word[i]);
            }
            law_words(line, c, front);
            assert((line + front).last() == front.last());
            assert(!is_space(word[word.len() - 2]));
            assert(front.last() == word[word.len() - 2]);
            let so_far = words(line).push(front);
            assert(so_far.drop_last() =~= words(line));
            assert(front.push(last) =~= word);
        }
    }
}

proof fn lemma_number_is_worth(digits: Seq<char>)
    ensures
        number_of(digits) == worth(digits),
    decreases digits.len(),
{
    if digits.len() > 0 {
        lemma_number_is_worth(digits.drop_last());
    }
}

proof fn lemma_not_a_digit(c: char)
    requires
        !('0' <= c <= '9'),
    ensures
        !(48 <= c as u32 <= 57),
{
}

/// A number in base ten is read as that number, with a plus sign in front or without, if it is not
/// too large, and is refused if it is. A word with anything else in it than digits behind its first
/// character is refused.
pub proof fn law_numbers_are_read_back(n: nat, word: Seq<char>, at: int)
    requires
        0 < at < word.len(),
        !('0' <= word[at] <= '9'),
    ensures
        n <= usize::MAX ==> parsed(decimal(n)) == Some(n),
        n <= usize::MAX ==> parsed(seq!['+'] + decimal(n)) == Some(n),
        n > usize::MAX ==> parsed(decimal(n)) is None,
        parsed(word) is None,
        parsed(Seq::empty()) is None,
{
    law_decimal_reads_back(n);
    lemma_number_is_worth(decimal(n));
    let digits = decimal(n);
    assert('0' <= digits[0] <= '9');
    assert(digits_of(digits) == digits);
    assert((seq!['+'] + digits).drop_first() =~= digits);
    assert(digits_of(seq!['+'] + digits) =~= digits);
    assert forall|i: int| 0 <= i < digits.len() implies 48 <= (#[trigger] digits[i]) as u32
        <= 57 by {
        assert('0' <= digits[i] <= '9');
    }
    let rest = digits_of(word);
    let behind = if word[0] == '+' {
        at - 1
    } else {
        at
    };
    assert(rest[behind] == word[at]);
    lemma_not_a_digit(word[at]);
}

/// A status text whose first line says the number of threads, as the kernel writes it, is read as
/// that number, whatever follows.
pub proof fn law_thread_count_is_read_back(n: nat, rest: Seq<char>)
    requires
        n <= usize::MAX,
    ensures
        threads_in(
            seq!['T', 'h', 'r', 'e', 'a', 'd', 's', ':', '\t'] + decimal(n) + seq!['\n'] + rest,
        ) == n,
{
    let name = seq!['T', 'h', 'r', 'e', 'a', 'd', 's', ':'];
    let tab = seq!['\t'];
    let digits = decimal(n);
    let line = name + tab + digits;
    let text = seq!['T', 'h', 'r', 'e', 'a', 'd', 's', ':', '\t'] + digits + seq!['\n'] + rest;
    law_decimal_reads_back(n);
    assert(text =~= line + seq!['\n'] + rest);
    assert forall|i: int| 0 <= i < line.len() implies #[trigger] text[i] != '\n' by {
        if i >= 9 {
            assert('0' <= digits[i - 9] <= '9');
        }
    }
    law_line_ends(text, 0);
    let end = line_end(text, 0);
    assert(text[line.len() as int] == '\n');
    assert(end == line.len()) by {
        if end < line.len() {
            assert(text[end] != '\n');
        }
    }
    assert(text.subrange(0, 8) =~= threads_prefix());
    assert(starts_at(text, 0, threads_prefix()));
    assert('0' <= digits[digits.len() - 1] <= '9');
    assert(line_at(text, 0) =~= line);
    assert(name =~= Seq::<char>::empty() + name);
    law_words(Seq::empty(), ' ', name);
    law_words(name, '\t', name);
    assert(name + tab =~= name.push('\t'));
    assert forall|i: int| 0 <= i < digits.len() implies !is_space(#[trigger] digits[i]) by {
        assert('0' <= digits[i] <= '9');
    }
    law_words(name + tab, ' ', digits);
    assert(words(line) == Seq::<Seq<char>>::empty().push(name).push(digits));
    let short = seq!['x', 'x'];
    law_numbers_are_read_back(n, short, 1);
}

/// A status text whose first line says the state of the process has that line found and given back
/// whole, without its end, whatever follows.
pub proof fn law_state_is_read_back(state: Seq<char>, rest: Seq<char>)
    requires
        !state.contains('\n'),
        state.len() > 0 ==> state.last() != '\r',
    ensures
        ({
            let line = seq!['S', 't', 'a', 't', 'e', ':'] + state;
            let text = line + seq!['\n'] + rest;
            &&& find_line(text, 0, state_prefix()) == Some(0int)
            &&& line_at(text, 0) == line
        }),
{
    let name = seq!['S', 't', 'a', 't', 'e', ':'];
    let line = name + state;
    let text = line + seq!['\n'] + rest;
    assert forall|i: int| 0 <= i < line.len() implies #[trigger] text[i] != '\n' by {
        if i >= 6 {
            assert(state.contains(state[i - 6]));
        }
    }
    law_line_ends(text, 0);
    let end = line_end(text, 0);
    assert(text[line.len() as int] == '\n');
    assert(end == line.len()) by {
        if end < line.len() {
            assert(text[end] != '\n');
        }
    }
    assert(text.subrange(0, 6) =~= state_prefix());
    assert(starts_at(text, 0, state_prefix()));
    if state.len() > 0 {
        assert(text[end - 1] == state.last());
    }
    assert(line_at(text, 0) =~= line);
}

} // verus!
