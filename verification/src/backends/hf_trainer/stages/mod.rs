//! The stages of the HuggingFace backend.

use vstd::prelude::*;

use crate::backends::hf_trainer::runner::{StatusLine, StatusLineView};
use crate::json;
use crate::json::{add_entry, count_value, object, single_value, text_value, Json, JsonView};
use crate::text;

pub mod hf_dpo_train;
pub mod hf_sft_train;

verus! {

/// The step event that a status line is reported by. The terminal lines are
/// reported by the result of the run.
pub open spec fn update_of(s: StatusLineView) -> Option<JsonView> {
    match s {
        StatusLineView::Step { step, total, loss, lr } => Some(
            JsonView::Object(
                seq![
                    ("kind"@, JsonView::Text("hf_step"@)),
                    ("step"@, JsonView::Number(text::decimal(step as nat))),
                    ("total"@, JsonView::Number(text::decimal(total as nat))),
                    ("loss"@, json::single_or_null(loss)),
                    ("lr"@, json::single_or_null(lr)),
                ],
            ),
        ),
        StatusLineView::Saved { path } => Some(
            JsonView::Object(
                seq![
                    ("kind"@, JsonView::Text("hf_saved"@)),
                    ("path"@, JsonView::Text(path)),
                ],
            ),
        ),
        _ => None,
    }
}

/// The step event that a status line is reported by, if it is.
pub fn step_update(s: &StatusLine) -> (r: Option<Json>)
    ensures
        update_of(s@) is Some <==> r is Some,
        r matches Some(v) ==> v@ == update_of(s@)->0,
{
    let mut e: Vec<(String, Json)> = Vec::new();
    assert(json::entries_view(e@) =~= Seq::<(Seq<char>, JsonView)>::empty());
    match s {
        StatusLine::Step { step, total, loss, lr } => {
            add_entry(&mut e, "kind", text_value("hf_step"));
            add_entry(&mut e, "step", count_value(*step));
            add_entry(&mut e, "total", count_value(*total));
            add_entry(&mut e, "loss", single_value(*loss));
            add_entry(&mut e, "lr", single_value(*lr));
            assert(json::entries_view(e@) =~= (update_of(s@)->0)->Object_0);
            Some(object(e))
        },
        StatusLine::Saved { path } => {
            add_entry(&mut e, "kind", text_value("hf_saved"));
            add_entry(&mut e, "path", text_value(path.as_str()));
            assert(json::entries_view(e@) =~= (update_of(s@)->0)->Object_0);
            Some(object(e))
        },
        _ => None,
    }
}

/// No two keys of an event are the same text.
proof fn lemma_event_keys_differ()
    ensures
        "kind"@.len() == 4 && "kind"@[0] == 'k',
        "step"@.len() == 4 && "step"@[0] == 's',
        "total"@.len() == 5,
        "loss"@.len() == 4 && "loss"@[0] == 'l',
        "lr"@.len() == 2,
        "path"@.len() == 4 && "path"@[0] == 'p',
{
    reveal_strlit("kind");
    reveal_strlit("step");
    reveal_strlit("total");
    reveal_strlit("loss");
    reveal_strlit("lr");
    reveal_strlit("path");
}

/// A step and a checkpoint are reported, each as an event of its own kind that holds what
/// the line says under its own key; the lines that end a run are not.
pub proof fn lemma_events_hold_what_the_line_says(s: StatusLineView)
    ensures
        update_of(s) is Some <==> s is Step || s is Saved,
        s matches StatusLineView::Step { step, total, loss, lr } ==> {
            let v = update_of(s)->0;
            &&& json::member(v, "kind"@) == Some(JsonView::Text("hf_step"@))
            &&& json::member(v, "step"@) == Some(JsonView::Number(text::decimal(step as nat)))
            &&& json::member(v, "total"@) == Some(JsonView::Number(text::decimal(total as nat)))
            &&& json::member(v, "loss"@) == Some(
                match loss {
                    Some(bits) => JsonView::Single(bits),
                    None => JsonView::Null,
                },
            )
            &&& json::member(v, "lr"@) == Some(
                match lr {
                    Some(bits) => JsonView::Single(bits),
                    None => JsonView::Null,
                },
            )
        },
        s matches StatusLineView::Saved { path } ==> {
            let v = update_of(s)->0;
            &&& json::member(v, "kind"@) == Some(JsonView::Text("hf_saved"@))
            &&& json::member(v, "path"@) == Some(JsonView::Text(path))
        },
{
    lemma_event_keys_differ();
    match s {
        StatusLineView::Step { step, total, loss, lr } => {
            let e = (update_of(s)->0)->Object_0;
            assert(e[0].0 == "kind"@);
            json::lemma_lookup_at(e, 0);
            assert(e[1].0 == "step"@);
            json::lemma_lookup_at(e, 1);
            assert(e[2].0 == "total"@);
            json::lemma_lookup_at(e, 2);
            assert(e[3].0 == "loss"@);
            json::lemma_lookup_at(e, 3);
            assert(e[4].0 == "lr"@);
            json::lemma_lookup_at(e, 4);
        },
        StatusLineView::Saved { path } => {
            let e = (update_of(s)->0)->Object_0;
            assert(e[0].0 == "kind"@);
            json::lemma_lookup_at(e, 0);
            assert(e[1].0 == "path"@);
            json::lemma_lookup_at(e, 1);
        },
        _ => {},
    }
}

} // verus!
