use vstd::prelude::*;

verus! {

/// The marker that opens a tool-namespaced identifier: `@tool:`.
pub open spec fn tool_marker() -> Seq<char> {
    seq!['@', 't', 'o', 'o', 'l', ':']
}

/// An identifier is tool-namespaced when it starts with `@tool:`.
pub open spec fn is_tool_identifier(s: Seq<char>) -> bool {
    s.len() >= 6 && s.subrange(0, 6) == tool_marker()
}

/// The index of the first `:` at or after `i`, if there is one.
pub open spec fn colon_from(s: Seq<char>, i: int) -> Option<int>
    decreases s.len() - i,
{
    if i < 0 || i >= s.len() {
        None
    } else if s[i] == ':' {
        Some(i)
    } else {
        colon_from(s, i + 1)
    }
}

/// The tool that owns a namespaced identifier `@tool:<name>:<rest>`.
pub open spec fn tool_name_of(s: Seq<char>) -> Option<Seq<char>> {
    if !is_tool_identifier(s) {
        None
    } else {
        match colon_from(s, 6) {
            Some(j) => Some(s.subrange(6, j)),
            None => None,
        }
    }
}

/// A group declared by the source owned by `tool` (the workspace source when `None`) is
/// acceptable when it is namespaced under that tool, or, for the workspace, not namespaced.
pub open spec fn group_valid_for(tool: Option<Seq<char>>, g: Seq<char>) -> bool {
    match tool {
        Some(t) => tool_name_of(g) == Some(t),
        None => !is_tool_identifier(g),
    }
}

/// The declared groups that the source owned by `tool` may hold.
pub open spec fn accepted_by(tool: Option<Seq<char>>) -> spec_fn(String) -> bool {
    |g: String| group_valid_for(tool, g@)
}

/// The declared groups that the source owned by `tool` may not hold.
pub open spec fn refused_by(tool: Option<Seq<char>>) -> spec_fn(String) -> bool {
    |g: String| !group_valid_for(tool, g@)
}

pub open spec fn opt_str_view(t: Option<&str>) -> Option<Seq<char>> {
    match t {
        Some(s) => Some(s@),
        None => None,
    }
}

/// Compares two strings character by character.
pub fn str_equal(a: &str, b: &str) -> (r: bool)
    ensures
        r == (a@ == b@),
{
    let n = a.unicode_len();
    if n != b.unicode_len() {
        return false;
    }
    let mut i: usize = 0;
    while i < n
        invariant
            n == a@.len(),
            n == b@.len(),
            i <= n,
            forall|k: int| 0 <= k < i ==> a@[k] == b@[k],
        decreases n - i,
    {
        if a.get_char(i) != b.get_char(i) {
            return false;
        }
        i = i + 1;
    }
    assert(a@ =~= b@);
    true
}

/// Tells whether `s` starts with `prefix`.
pub fn str_starts_with(s: &str, prefix: &str) -> (r: bool)
    ensures
        r == (prefix@.len() <= s@.len() && s@.subrange(0, prefix@.len() as int) == prefix@),
{
    let n = prefix.unicode_len();
    if n > s.unicode_len() {
        return false;
    }
    let head = s.substring_char(0, n);
    str_equal(head, prefix)
}

/// Tells whether an identifier is tool-namespaced.
pub fn is_tool_ident(s: &str) -> (r: bool)
    ensures
        r == is_tool_identifier(s@),
{
    proof {
        reveal_strlit("@tool:");
    }
    let marker = "@tool:";
    assert(marker@ =~= tool_marker());
    str_starts_with(s, marker)
}

/// Returns the tool that owns a namespaced identifier: `my-tool` for `@tool:my-tool:group`.
pub fn tool_name(s: &str) -> (r: Option<&str>)
    ensures
        opt_str_view(r) == tool_name_of(s@),
{
    if !is_tool_ident(s) {
        return None;
    }
    let n = s.unicode_len();
    let mut j: usize = 6;
    while j < n
        invariant
            n == s@.len(),
            6 <= j <= n,
            is_tool_identifier(s@),
            colon_from(s@, 6) == colon_from(s@, j as int),
        decreases n - j,
    {
        if s.get_char(j) == ':' {
            return Some(s.substring_char(6, j));
        }
        j = j + 1;
    }
    None
}

/// Tells whether a group declared by the source owned by `tool` is acceptable.
pub fn group_is_valid_for(tool: Option<&str>, g: &str) -> (r: bool)
    ensures
        r == group_valid_for(opt_str_view(tool), g@),
{
    match tool {
        Some(t) => match tool_name(g) {
            Some(owner) => str_equal(owner, t),
            None => false,
        },
        None => !is_tool_ident(g),
    }
}

/// Splits declared group names into the acceptable ones and the rest, keeping their order.
pub fn partition_groups(tool: Option<&str>, groups: &Vec<String>) -> (r: (Vec<String>, Vec<String>))
    ensures
        r.0@ == groups@.filter(accepted_by(opt_str_view(tool))),
        r.1@ == groups@.filter(refused_by(opt_str_view(tool))),
{
    let mut valid: Vec<String> = Vec::new();
    let mut invalid: Vec<String> = Vec::new();
    let mut i: usize = 0;
    while i < groups.len()
        invariant
            i <= groups@.len(),
            valid@ == groups@.subrange(0, i as int).filter(accepted_by(opt_str_view(tool))),
            invalid@ == groups@.subrange(0, i as int).filter(refused_by(opt_str_view(tool))),
        decreases groups@.len() - i,
    {
        let g = &groups[i];
        proof {
            assert(groups@.subrange(0, i + 1) == groups@.subrange(0, i as int).push(groups@[i as int]));
            groups@.subrange(0, i as int).lemma_filter_push(groups@[i as int], accepted_by(opt_str_view(tool)));
            groups@.subrange(0, i as int).lemma_filter_push(groups@[i as int], refused_by(opt_str_view(tool)));
        }
        let ok = group_is_valid_for(tool, g.as_str());
        assert(accepted_by(opt_str_view(tool))(groups@[i as int]) == ok);
        assert(refused_by(opt_str_view(tool))(groups@[i as int]) == !ok);
        if ok {
            valid.push(g.clone());
        } else {
            invalid.push(g.clone());
        }
        i = i + 1;
    }
    assert(groups@.subrange(0, groups@.len() as int) == groups@);
    (valid, invalid)
}

} // verus!
