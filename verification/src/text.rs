use vstd::prelude::*;

verus! {

/// The text that `truncate_string` makes of `s`: `s` itself when it has at most
/// `max_chars` characters, else its first `max_chars` characters followed by `...`.
pub open spec fn truncated(s: Seq<char>, max_chars: nat) -> Seq<char> {
    if s.len() <= max_chars {
        s
    } else {
        s.take(max_chars as int) + seq!['.', '.', '.']
    }
}

/// Shortens `s` to at most `max_chars` characters, marking a cut with `...`.
pub fn truncate_string(s: &str, max_chars: usize) -> (res: String)
    ensures
        res@ == truncated(s@, max_chars as nat),
{
    let n = s.unicode_len();
    if n <= max_chars {
        String::from_str(s)
    } else {
        let head = s.substring_char(0, max_chars);
        let mut res = String::from_str(head);
        let dots = "...";
        proof {
            reveal_strlit("...");
        }
        res.append(dots);
        res
    }
}

} // verus!
