# blut_cookbooks

The decisions of the standard and core cookbooks of the BLUT engine, stated as
contracts and proved with Verus.

A cookbook is a set of stages (load, filter, split, train, merge, convert, register,
evaluate) and of recipes that wire stages into plans. Files, processes, the network and
floating-point arithmetic belong to the program in `app/`. What a stage checks, what it
asks that program for, and what it makes of the answer is decided in `src/`.

| Where | What |
|---|---|
| `src/distributed.rs` | When a run goes under `torchrun`, and with which arguments |
| `src/backends/lamu` | The run of `trainer.py` as a state machine: launch, status lines, watchdog, result |
| `src/backends/hf_trainer` | The HuggingFace trainer: its Python environment, its run, its stages, its pinned requirements |
| `src/stages` | The stages of the standard cookbook and their catalog |
| `src/cookbook_core` | The stages and recipes of the core cookbook |
| `src/recipes` | The study fixture |
| `src/plan.rs` | Plans: nodes, edges, and what flows along them |
| `src/json.rs`, `src/jsonl.rs`, `src/text.rs`, `src/number.rs`, `src/span.rs` | The values that the contracts speak of |

Calls into other crates (`serde_json`, `rand`, `blut`) and one of `std` stand behind small
functions marked `external_body`; the doc comment of each says what is taken on trust.
