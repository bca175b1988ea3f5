//! The policy on the pinned requirements: each line of the policy file is one exact
//! package pin, and the pins become a constant of generated source.

use vstd::prelude::*;
use vstd::string::*;

use crate::jsonl;
use crate::jsonl::lines;
use crate::text;
use crate::text::{add_text, characters, has_text, trim};

verus! {

/// A line of the policy that is neither blank nor a comment.
pub open spec fn is_requirement(line: Seq<char>) -> bool {
    line.len() > 0 && line[0] != '#'
}

/// The requirements of a policy: its lines without the white space around them, but
/// for blank lines and comments.
pub open spec fn requirements_of(lines: Seq<Seq<char>>) -> Seq<Seq<char>>
    decreases lines.len(),
{
    if lines.len() == 0 {
        Seq::empty()
    } else {
        let before = requirements_of(lines.drop_last());
        let line = text::trimmed(lines.last());
        if is_requirement(line) {
            before.push(line)
        } else {
            before
        }
    }
}

/// A character of a package pin.
pub open spec fn is_pin_char(c: char) -> bool {
    ||| 'a' <= c <= 'z'
    ||| 'A' <= c <= 'Z'
    ||| '0' <= c <= '9'
    ||| c == '.'
    ||| c == '='
    ||| c == '_'
    ||| c == '-'
    ||| c == '+'
    ||| c == '['
    ||| c == ']'
}

/// One exact package pin, without options.
pub open spec fn is_pin(s: Seq<char>) -> bool {
    text::occurs_in(s, "=="@) && forall|i: int| 0 <= i < s.len() ==> is_pin_char(#[trigger] s[i])
}

/// What is wrong with a policy.
pub open spec fn complaint(requirements: Seq<Seq<char>>) -> Option<Seq<char>> {
    if requirements.len() == 0 {
        Some("HF requirements policy is empty"@)
    } else {
        first_fault(requirements)
    }
}

/// What is said of the first requirement that is no pin.
pub open spec fn first_fault(requirements: Seq<Seq<char>>) -> Option<Seq<char>>
    decreases requirements.len(),
{
    if requirements.len() == 0 {
        None
    } else if !is_pin(requirements[0]) {
        Some(
            "HF requirement must be one exact, option-free package pin: "@ + requirements[0],
        )
    } else {
        first_fault(requirements.drop_first())
    }
}

fn pin_char(c: char) -> (r: bool)
    ensures
        r == is_pin_char(c),
{
    ('a' <= c && c <= 'z') || ('A' <= c && c <= 'Z') || ('0' <= c && c <= '9') || c == '.' || c
        == '=' || c == '_' || c == '-' || c == '+' || c == '[' || c == ']'
}

/// Whether a requirement is one exact package pin.
pub fn pins(s: &str) -> (r: bool)
    ensures
        r == is_pin(s@),
{
    if !has_text(s, "==") {
        return false;
    }
    for c in it: s.chars()
        invariant
            it.seq() == s@,
            forall|i: int| 0 <= i < it.index() ==> is_pin_char(#[trigger] s@[i]),
    {
        if !pin_char(c) {
            assert(!is_pin_char(s@[it.index()]));
            return false;
        }
    }
    true
}

/// The requirements of a policy, each of them a pin. A policy without requirements,
/// or with one that is no pin, is refused.
pub fn requirements(policy: &str) -> (r: Result<Vec<String>, String>)
    ensures
        match r {
            Ok(v) => {
                &&& text::texts(v@) == requirements_of(jsonl::lines_of(policy@))
                &&& complaint(text::texts(v@)) is None
            },
            Err(e) => complaint(requirements_of(jsonl::lines_of(policy@))) == Some(e@),
        },
{
    let all = lines(policy);
    let ghost texts = text::texts(all@);
    let mut v: Vec<String> = Vec::new();
    assert(text::texts(v@) =~= Seq::<Seq<char>>::empty());
    assert(texts.take(0) =~= Seq::<Seq<char>>::empty());
    let mut i: usize = 0;
    while i < all.len()
        invariant
            i <= all.len(),
            texts == text::texts(all@),
            text::texts(v@) == requirements_of(texts.take(i as int)),
        decreases all.len() - i,
    {
        assert(texts.take(i + 1).drop_last() =~= texts.take(i as int));
        assert(texts.take(i + 1).last() == all@[i as int]@);
        let line = trim(all[i].as_str());
        let chars = characters(line.as_str());
        if chars.len() > 0 && chars[0] != '#' {
            add_text(&mut v, line.as_str());
        }
        i += 1;
    }
    assert(texts.take(i as int) =~= texts);
    let ghost found = text::texts(v@);
    assert(found.len() == v@.len());
    if v.len() == 0 {
        return Err("HF requirements policy is empty".to_string());
    }
    let mut k: usize = 0;
    assert(found.skip(0) =~= found);
    while k < v.len()
        invariant
            k <= v.len(),
            v.len() > 0,
            found == text::texts(v@),
            found == requirements_of(jsonl::lines_of(policy@)),
            first_fault(found) == first_fault(found.skip(k as int)),
        decreases v.len() - k,
    {
        assert(found.skip(k as int)[0] == v@[k as int]@);
        assert(found.skip(k as int).drop_first() =~= found.skip(k + 1));
        if !pins(v[k].as_str()) {
            return Err(
                "HF requirement must be one exact, option-free package pin: ".to_string().concat(
                    v[k].as_str(),
                ),
            );
        }
        k += 1;
    }
    Ok(v)
}

/// The lines of a constant that holds the pins.
pub open spec fn constant_lines(requirements: Seq<Seq<char>>) -> Seq<char>
    decreases requirements.len(),
{
    if requirements.len() == 0 {
        Seq::empty()
    } else {
        constant_lines(requirements.drop_last()) + "    \""@ + requirements.last() + "\",\n"@
    }
}

/// The generated source: a constant with the pins, in their order.
pub open spec fn source_of(requirements: Seq<Seq<char>>) -> Seq<char> {
    "/// Exact direct requirements represented by the transitive lock.\n/// Generated from requirements-hf.in; provisioning consumes the full lock.\npub const REQUIRED_PKGS: &[&str] = &[\n"@
        + constant_lines(requirements) + "];\n"@
}

/// Writes the generated source.
pub fn generated_source(requirements: &Vec<String>) -> (s: String)
    ensures
        s@ == source_of(text::texts(requirements@)),
{
    let ghost all = text::texts(requirements@);
    let mut body: String = String::new();
    let mut i: usize = 0;
    assert(all.take(0) =~= Seq::<Seq<char>>::empty());
    while i < requirements.len()
        invariant
            i <= requirements.len(),
            all == text::texts(requirements@),
            body@ == constant_lines(all.take(i as int)),
        decreases requirements.len() - i,
    {
        assert(all.take(i + 1).drop_last() =~= all.take(i as int));
        body.append("    \"");
        body.append(requirements[i].as_str());
        body.append("\",\n");
        i += 1;
    }
    assert(all.take(i as int) =~= all);
    "/// Exact direct requirements represented by the transitive lock.\n/// Generated from requirements-hf.in; provisioning consumes the full lock.\npub const REQUIRED_PKGS: &[&str] = &[\n".to_string().concat(
    body.as_str()).concat("];\n")
}

proof fn lemma_no_fault_means_pins(requirements: Seq<Seq<char>>, i: int)
    requires
        first_fault(requirements) is None,
        0 <= i < requirements.len(),
    ensures
        is_pin(requirements[i]),
    decreases requirements.len(),
{
    if i > 0 {
        lemma_no_fault_means_pins(requirements.drop_first(), i - 1);
    }
}

/// An accepted policy holds pins alone, and at least one.
pub proof fn lemma_an_accepted_policy_holds_pins(requirements: Seq<Seq<char>>)
    requires
        complaint(requirements) is None,
    ensures
        requirements.len() > 0,
        forall|i: int| 0 <= i < requirements.len() ==> is_pin(#[trigger] requirements[i]),
{
    assert forall|i: int| 0 <= i < requirements.len() implies is_pin(
        #[trigger] requirements[i],
    ) by {
        lemma_no_fault_means_pins(requirements, i);
    }
}

/// The requirements are the lines without the white space around them, in their order, but
/// for blank lines and comments: every line is judged by itself.
pub proof fn lemma_every_line_is_judged_by_itself(
    a: Seq<Seq<char>>,
    b: Seq<Seq<char>>,
    line: Seq<char>,
)
    ensures
        requirements_of(a + b) == requirements_of(a) + requirements_of(b),
        text::is_blank(line) ==> requirements_of(seq![line]) == Seq::<Seq<char>>::empty(),
        !text::is_blank(line) && text::trimmed(line)[0] == '#' ==> requirements_of(seq![line])
            == Seq::<Seq<char>>::empty(),
        !text::is_blank(line) && text::trimmed(line)[0] != '#' ==> requirements_of(seq![line])
            == seq![text::trimmed(line)],
    decreases b.len(),
{
    text::lemma_trimming_drops_white_space_alone(line);
    let one = seq![line];
    assert(one.drop_last() =~= Seq::<Seq<char>>::empty());
    assert(requirements_of(one.drop_last()) =~= Seq::<Seq<char>>::empty());
    assert(Seq::<Seq<char>>::empty().push(text::trimmed(line)) =~= seq![text::trimmed(line)]);
    if b.len() == 0 {
        assert(a + b =~= a);
        assert(requirements_of(a) + requirements_of(b) =~= requirements_of(a));
    } else {
        lemma_every_line_is_judged_by_itself(a, b.drop_last(), line);
        assert((a + b).drop_last() =~= a + b.drop_last());
        assert((a + b).last() == b.last());
        assert(requirements_of(a + b) =~= requirements_of(a) + requirements_of(b));
    }
}

/// What a pin is: it fixes a version with `==`, and is made of letters, digits and the few
/// signs of names and versions, so that no option and no range can be in it.
pub proof fn lemma_what_a_pin_is(s: Seq<char>)
    ensures
        is_pin(s) ==> text::occurs_in(s, "=="@),
        is_pin(s) ==> !s.contains(' ') && !s.contains('>') && !s.contains('<') && !s.contains(';')
            && !s.contains('@') && !s.contains('/') && !s.contains(','),
        forall|c: char|
            #[trigger] is_pin_char(c) <==> ('a' <= c <= 'z') || ('A' <= c <= 'Z') || ('0' <= c
                <= '9') || c == '.' || c == '=' || c == '_' || c == '-' || c == '+' || c == '['
                || c == ']',
        text::occurs_in(s, "=="@) && (forall|i: int|
            0 <= i < s.len() ==> is_pin_char(#[trigger] s[i])) ==> is_pin(s),
{
}

proof fn lemma_the_first_fault_is_found(requirements: Seq<Seq<char>>, i: int)
    requires
        0 <= i < requirements.len(),
        !is_pin(requirements[i]),
        forall|k: int| 0 <= k < i ==> is_pin(#[trigger] requirements[k]),
    ensures
        first_fault(requirements) == Some(
            "HF requirement must be one exact, option-free package pin: "@ + requirements[i],
        ),
    decreases requirements.len(),
{
    if i > 0 {
        assert(is_pin(requirements[0]));
        let rest = requirements.drop_first();
        assert forall|k: int| 0 <= k < i - 1 implies is_pin(#[trigger] rest[k]) by {
            assert(rest[k] == requirements[k + 1]);
        }
        lemma_the_first_fault_is_found(rest, i - 1);
    }
}

proof fn lemma_pins_have_no_fault(requirements: Seq<Seq<char>>)
    requires
        forall|k: int| 0 <= k < requirements.len() ==> is_pin(#[trigger] requirements[k]),
    ensures
        first_fault(requirements) is None,
    decreases requirements.len(),
{
    if requirements.len() > 0 {
        assert(is_pin(requirements[0]));
        let rest = requirements.drop_first();
        assert forall|k: int| 0 <= k < rest.len() implies is_pin(#[trigger] rest[k]) by {
            assert(rest[k] == requirements[k + 1]);
        }
        lemma_pins_have_no_fault(rest);
    }
}

/// A policy is accepted exactly where it holds something and nothing but pins; what is said
/// of one that is not names the first requirement that is no pin.
pub proof fn lemma_which_policies_are_accepted(requirements: Seq<Seq<char>>, i: int)
    ensures
        complaint(requirements) is None <==> requirements.len() > 0 && forall|k: int|
            0 <= k < requirements.len() ==> is_pin(#[trigger] requirements[k]),
        requirements.len() == 0 ==> complaint(requirements) == Some(
            "HF requirements policy is empty"@,
        ),
        0 <= i < requirements.len() && !is_pin(requirements[i]) && (forall|k: int|
            0 <= k < i ==> is_pin(#[trigger] requirements[k])) ==> (complaint(
            requirements,
        ) matches Some(m) && text::occurs_in(m, requirements[i])),
{
    if complaint(requirements) is None {
        lemma_an_accepted_policy_holds_pins(requirements);
    }
    if forall|k: int| 0 <= k < requirements.len() ==> is_pin(#[trigger] requirements[k]) {
        lemma_pins_have_no_fault(requirements);
    }
    if 0 <= i < requirements.len() && !is_pin(requirements[i]) && (forall|k: int|
        0 <= k < i ==> is_pin(#[trigger] requirements[k])) {
        lemma_the_first_fault_is_found(requirements, i);
        text::lemma_the_ends_occur(
            "HF requirement must be one exact, option-free package pin: "@,
            requirements[i],
        );
    }
}

/// The generated source names the constant and holds every pin, quoted and on a line of its
/// own, in their order.
pub proof fn lemma_the_source_holds_every_pin(a: Seq<Seq<char>>, pin: Seq<char>, b: Seq<Seq<char>>)
    ensures
        constant_lines(a + seq![pin] + b) == constant_lines(a) + ("    \""@ + pin + "\",\n"@)
            + constant_lines(b),
        text::occurs_in(source_of(a + seq![pin] + b), "    \""@ + pin + "\",\n"@),
        text::occurs_in(source_of(a), constant_lines(a)),
    decreases b.len(),
{
    let line = "    \""@ + pin + "\",\n"@;
    let head =
        "/// Exact direct requirements represented by the transitive lock.\n/// Generated from requirements-hf.in; provisioning consumes the full lock.\npub const REQUIRED_PKGS: &[&str] = &[\n"@;
    let all = a + seq![pin] + b;
    if b.len() == 0 {
        assert(all.drop_last() =~= a);
        assert(all.last() == pin);
        assert(constant_lines(b) =~= Seq::<char>::empty());
        assert(constant_lines(all) =~= constant_lines(a) + line + constant_lines(b));
    } else {
        lemma_the_source_holds_every_pin(a, pin, b.drop_last());
        assert(all.drop_last() =~= a + seq![pin] + b.drop_last());
        assert(all.last() == b.last());
        assert(constant_lines(all) =~= constant_lines(a) + line + constant_lines(b));
    }
    let lines = constant_lines(all);
    text::lemma_a_part_occurs(constant_lines(a), line, constant_lines(b));
    assert(text::occurs_in(lines, line));
    let (before, after) = (head + constant_lines(a), constant_lines(b) + "];\n"@);
    assert(source_of(all) =~= before + line + after);
    text::lemma_a_part_occurs(before, line, after);
    text::lemma_a_part_occurs(head, constant_lines(a), "];\n"@);
}

} // verus!
