//! The "amazon" plugin: strips everything between the domain and the
//! `dp/<ID>` path segment of an Amazon product URL, dropping tracking and
//! search clutter. `https://www.amazon.co.jp/some-product/dp/B000ABC123/ref=x`
//! becomes `https://www.amazon.co.jp/dp/B000ABC123`.

use vstd::prelude::*;

use crate::contract::AutoclipPlugin;

verus! {

/// The domain prefix an Amazon product URL starts with.
pub open spec fn spec_amazon_prefix() -> Seq<char> {
    "https://www.amazon.co.jp/"@
}

/// Characters a product identifier is made of: upper-case letters and
/// digits.
pub open spec fn spec_is_id_char(c: char) -> bool {
    (65 <= c as u32 && c as u32 <= 90) || (48 <= c as u32 && c as u32 <= 57)
}

/// Whether a `dp/<ID>` path segment begins at position `i` of the URL's
/// part after the domain: `dp/` at the start of a path segment, followed by
/// at least one identifier character.
pub open spec fn spec_is_dp_start(rest: Seq<char>, i: int) -> bool {
    &&& 0 <= i
    &&& i + 4 <= rest.len()
    &&& (i == 0 || rest[i - 1] == '/')
    &&& rest[i] == 'd'
    &&& rest[i + 1] == 'p'
    &&& rest[i + 2] == '/'
    &&& spec_is_id_char(rest[i + 3])
}

/// The first position at or after `from` where a `dp/<ID>` segment begins.
pub open spec fn spec_first_dp_start(rest: Seq<char>, from: int) -> Option<int>
    decreases rest.len() - from when 0 <= from
{
    if from + 4 > rest.len() {
        None
    } else if spec_is_dp_start(rest, from) {
        Some(from)
    } else {
        spec_first_dp_start(rest, from + 1)
    }
}

/// Where the run of identifier characters beginning at `from` ends.
pub open spec fn spec_id_run_end(rest: Seq<char>, from: int) -> int
    decreases rest.len() - from when 0 <= from <= rest.len()
{
    if from < rest.len() && spec_is_id_char(rest[from]) {
        spec_id_run_end(rest, from + 1)
    } else {
        from
    }
}

/// The plugin's rule. A URL is claimed when it starts with the Amazon
/// domain and its path contains a `dp/<ID>` segment; the replacement is the
/// domain followed by `dp/` and the whole identifier, everything between
/// and after stripped. A URL that is already of that shape is answered
/// with "no change" rather than with itself.
pub open spec fn spec_amazon_rewrite(contents: Seq<char>) -> Option<Seq<char>> {
    let prefix = spec_amazon_prefix();
    if contents.len() < prefix.len() || contents.subrange(0, prefix.len() as int) != prefix {
        None
    } else {
        let rest = contents.skip(prefix.len() as int);
        match spec_first_dp_start(rest, 0) {
            None => None,
            Some(start) => {
                let output = prefix + rest.subrange(start, spec_id_run_end(rest, start + 3));
                if output == contents {
                    None
                } else {
                    Some(output)
                }
            }
        }
    }
}

fn is_id_char(c: char) -> (r: bool)
    ensures
        r == spec_is_id_char(c),
{
    let u = c as u32;
    (65 <= u && u <= 90) || (48 <= u && u <= 57)
}

/// Whether the text begins with the Amazon domain.
fn has_amazon_prefix(contents: &str) -> (r: bool)
    ensures
        r == (contents@.len() >= spec_amazon_prefix().len()
            && contents@.subrange(0, spec_amazon_prefix().len() as int) == spec_amazon_prefix()),
{
    let prefix: &str = "https://www.amazon.co.jp/";
    proof {
        reveal_strlit("https://www.amazon.co.jp/");
        assert(prefix@ == spec_amazon_prefix());
    }

    let n = contents.unicode_len();
    if n < 25 {
        return false;
    }

    let mut index: usize = 0;
    while index < 25
        invariant
            index <= 25,
            n == contents@.len(),
            n >= 25,
            spec_amazon_prefix().len() == 25,
            prefix@ == spec_amazon_prefix(),
            forall|j: int| 0 <= j < index ==> contents@[j] == spec_amazon_prefix()[j],
        decreases 25 - index,
    {
        if contents.get_char(index) != prefix.get_char(index) {
            proof {
                assert(contents@.subrange(0, 25)[index as int] == contents@[index as int]);
            }
            return false;
        }
        index += 1;
    }

    proof {
        assert(contents@.subrange(0, 25) =~= spec_amazon_prefix());
    }
    true
}

/// The position of the first `dp/<ID>` segment of the part after the
/// domain, if there is one.
fn find_dp_start(rest: &str) -> (r: Option<usize>)
    ensures
        match r {
            Some(i) => {
                &&& spec_first_dp_start(rest@, 0) == Some(i as int)
                &&& spec_is_dp_start(rest@, i as int)
                &&& i + 4 <= rest@.len()
            },
            None => spec_first_dp_start(rest@, 0) is None,
        },
{
    let n = rest.unicode_len();
    if n < 4 {
        return None;
    }

    let mut index: usize = 0;
    while index <= n - 4
        invariant
            n == rest@.len(),
            n >= 4,
            index <= n - 3,
            spec_first_dp_start(rest@, 0) == spec_first_dp_start(rest@, index as int),
        decreases n - index,
    {
        let is_start = (index == 0 || rest.get_char(index - 1) == '/')
            && rest.get_char(index) == 'd'
            && rest.get_char(index + 1) == 'p'
            && rest.get_char(index + 2) == '/'
            && is_id_char(rest.get_char(index + 3));

        if is_start {
            proof {
                assert(spec_is_dp_start(rest@, index as int));
            }
            return Some(index);
        }

        proof {
            assert(!spec_is_dp_start(rest@, index as int));
        }
        index += 1;
    }

    proof {
        assert(spec_first_dp_start(rest@, index as int) is None);
    }
    None
}

/// Where the identifier run that begins at `from` ends.
fn id_run_end(rest: &str, from: usize, n: usize) -> (end: usize)
    requires
        from <= n,
        n == rest@.len(),
    ensures
        end as int == spec_id_run_end(rest@, from as int),
        from <= end <= n,
    decreases n - from,
{
    if from < n {
        if is_id_char(rest.get_char(from)) {
            return id_run_end(rest, from + 1, n);
        }
    }
    from
}

/// Applies the rule of [`spec_amazon_rewrite`] to the text: the canonical
/// product URL when the text is a claimed Amazon URL that is not already
/// canonical, and "no change" otherwise.
pub fn amazon_rewrite(contents: &str) -> (r: Option<String>)
    ensures
        r.deep_view() == spec_amazon_rewrite(contents@),
        r matches Some(s) ==> s@ != contents@,
{
    proof {
        reveal_strlit("https://www.amazon.co.jp/");
    }

    if !has_amazon_prefix(contents) {
        return None;
    }

    let n = contents.unicode_len();
    let rest = contents.substring_char(25, n);
    proof {
        assert(contents@.skip(25) =~= contents@.subrange(25, n as int));
    }

    let start = match find_dp_start(rest) {
        Some(i) => i,
        None => {
            return None;
        }
    };

    let rest_len = rest.unicode_len();
    let end = id_run_end(rest, start + 3, rest_len);

    if start == 0 && end == rest_len {
        proof {
            assert(rest@.subrange(0, rest@.len() as int) =~= rest@);
            assert(spec_amazon_prefix() + rest@ =~= contents@);
        }
        None
    } else {
        let id_part = rest.substring_char(start, end);
        let output = String::from_str("https://www.amazon.co.jp/").concat(id_part);
        proof {
            let spec_output = spec_amazon_prefix()
                + rest@.subrange(start as int, spec_id_run_end(rest@, start as int + 3));
            assert(output@ =~= spec_output);
            assert(output@.len() < contents@.len());
        }
        Some(output)
    }
}

/// The plugin that canonicalises Amazon product URLs on the clipboard.
pub struct AutoclipPluginAmazon;

impl AutoclipPlugin for AutoclipPluginAmazon {
    open spec fn on_clip_spec(&self, contents: Seq<char>) -> Option<Seq<char>> {
        spec_amazon_rewrite(contents)
    }

    fn on_clip(&self, contents: &str) -> (r: Option<String>) {
        amazon_rewrite(contents)
    }
}

} // verus!
