//! The response envelope and the paging of a list.
use vstd::prelude::*;
use vstd::string::StringExecFns;

verus! {

/// The character of a decimal digit.
pub open spec fn digit_char(d: nat) -> char {
    if d == 0 {
        '0'
    } else if d == 1 {
        '1'
    } else if d == 2 {
        '2'
    } else if d == 3 {
        '3'
    } else if d == 4 {
        '4'
    } else if d == 5 {
        '5'
    } else if d == 6 {
        '6'
    } else if d == 7 {
        '7'
    } else if d == 8 {
        '8'
    } else {
        '9'
    }
}

/// The decimal digits of `n`, without leading zeros.
pub open spec fn digits(n: nat) -> Seq<char>
    decreases n,
{
    if n < 10 {
        seq![digit_char(n)]
    } else {
        digits(n / 10).push(digit_char(n % 10))
    }
}

/// The decimal text of `i`, with a minus sign where it is negative.
pub open spec fn decimal(i: int) -> Seq<char> {
    if i < 0 {
        seq!['-'] + digits((-i) as nat)
    } else {
        digits(i as nat)
    }
}

/// The text of the response envelope: a JSON object with the fields `code`,
/// `message` and `data`, one to a line. The message stands between quotes as
/// it is; the data stands as it is.
pub open spec fn response_text(code: int, msg: Seq<char>, data: Seq<char>) -> Seq<char> {
    "{\n\"code\":"@ + decimal(code) + ",\n\"message\":\""@ + msg + "\",\n\"data\":"@ + data + "\n}"@
}

/// The text of one decimal digit.
fn digit_str(d: u32) -> (r: &'static str)
    requires
        d < 10,
    ensures
        r@ == seq![digit_char(d as nat)],
{
    proof {
        reveal_strlit("0");
        reveal_strlit("1");
        reveal_strlit("2");
        reveal_strlit("3");
        reveal_strlit("4");
        reveal_strlit("5");
        reveal_strlit("6");
        reveal_strlit("7");
        reveal_strlit("8");
        reveal_strlit("9");
    }
    let r = if d == 0 {
        "0"
    } else if d == 1 {
        "1"
    } else if d == 2 {
        "2"
    } else if d == 3 {
        "3"
    } else if d == 4 {
        "4"
    } else if d == 5 {
        "5"
    } else if d == 6 {
        "6"
    } else if d == 7 {
        "7"
    } else if d == 8 {
        "8"
    } else {
        "9"
    };
    assert(r@ =~= seq![digit_char(d as nat)]);
    r
}

/// Appends the decimal digits of `n` to `out`.
fn push_digits(out: &mut String, n: u32)
    ensures
        final(out)@ == old(out)@ + digits(n as nat),
    decreases n,
{
    if n >= 10 {
        push_digits(out, n / 10);
    }
    out.append(digit_str(n % 10));
    assert(out@ =~= old(out)@ + digits(n as nat));
}

/// Appends the decimal text of `i` to `out`.
fn push_decimal(out: &mut String, i: i32)
    ensures
        final(out)@ == old(out)@ + decimal(i as int),
{
    if i < 0 {
        proof {
            reveal_strlit("-");
        }
        out.append("-");
        let magnitude: u32 = if i == i32::MIN {
            0x8000_0000u32
        } else {
            (-i) as u32
        };
        push_digits(out, magnitude);
        assert(out@ =~= old(out)@ + decimal(i as int));
    } else {
        push_digits(out, i as u32);
    }
}

/// The response envelope for a code, a message and the JSON text of the data.
pub fn get_response_json(code: i32, msg: String, data: String) -> (r: String)
    ensures
        r@ == response_text(code as int, msg@, data@),
{
    let mut out = String::from_str("{\n\"code\":");
    push_decimal(&mut out, code);
    out.append(",\n\"message\":\"");
    out.append(msg.as_str());
    out.append("\",\n\"data\":");
    out.append(data.as_str());
    out.append("\n}");
    out
}

/// The index of the first item of page `page_no`, counted from one, when a
/// page has `page_size` places.
pub open spec fn page_first(page_no: int, page_size: int) -> int {
    page_size * (page_no - 1)
}

/// The index at which page `page_no` ends in a list of `len` items: one
/// before the first place of the next page, so that the last place of each
/// page stays empty, and not beyond the end of the list.
pub open spec fn page_last(page_no: int, page_size: int, len: int) -> int {
    if page_no * page_size - 1 > len {
        len
    } else {
        page_no * page_size - 1
    }
}

/// Whether page `page_no` holds anything of a list of `len` items.
pub open spec fn page_holds(page_no: int, page_size: int, len: int) -> bool {
    page_first(page_no, page_size) < len && page_last(page_no, page_size, len) > page_first(
        page_no,
        page_size,
    )
}

/// The items of `from` that fall on page `page_no`: copies of those from
/// `page_first` up to, but without, `page_last`, in their order; none where
/// the page begins behind the end of the list or is empty.
///
/// The bounds must be computable in 32 bits, and a page that holds anything
/// must not begin before the list does.
pub fn normalize_vector<T: Clone>(page_no: i32, page_size: i32, from: &Vec<T>) -> (r: Vec<T>)
    requires
        from@.len() <= i32::MAX,
        i32::MIN <= page_first(page_no as int, page_size as int) <= i32::MAX,
        i32::MIN < page_no * page_size <= i32::MAX,
        page_no > i32::MIN,
        page_holds(page_no as int, page_size as int, from@.len() as int) ==> page_first(
            page_no as int,
            page_size as int,
        ) >= 0,
    ensures
        page_holds(page_no as int, page_size as int, from@.len() as int) ==> {
            &&& r@.len() == page_last(page_no as int, page_size as int, from@.len() as int) - page_first(
                page_no as int,
                page_size as int,
            )
            &&& forall|j: int|
                0 <= j < r@.len() ==> cloned(
                    from@[page_first(page_no as int, page_size as int) + j],
                    #[trigger] r@[j],
                )
        },
        !page_holds(page_no as int, page_size as int, from@.len() as int) ==> r@.len() == 0,
{
    let first: i32 = page_size * (page_no - 1);
    let mut last: i32 = page_no * page_size - 1;
    let len: i32 = from.len() as i32;
    if last > len {
        last = len;
    }
    let mut ret: Vec<T> = Vec::new();
    if first < len && last > first {
        let start: usize = first as usize;
        let end: usize = last as usize;
        let mut i: usize = start;
        while i < end
            invariant
                start <= i <= end <= from@.len(),
                ret@.len() == i - start,
                forall|j: int| 0 <= j < ret@.len() ==> cloned(from@[start + j], #[trigger] ret@[j]),
            decreases end - i,
        {
            ret.push(from[i].clone());
            i = i + 1;
        }
    }
    ret
}

} // verus!
