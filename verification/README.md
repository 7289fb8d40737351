# deep_juno

The rules of a tick-based civilization simulation, written in Verus and proved
against their specifications.

- `src/` is the verified library: the technology tree and research progress,
  terraforming phases, combat damage and occupation, the ends of wars and the
  war trigger, fleet dispatch, the planet–nation index, random-event rolls,
  launch options, the tick clock, event importance and display cadence, and the
  terminal dashboard's control state.
- `tests/` exercises the library on concrete values.
- `app/` is the Bevy program around it: the floating-point economy,
  population, diplomacy and combat strength, the scenario file, the terminal
  dashboard, the console log and the WebSocket feed.

## How a nation's technology is held

`TechnologyState` keeps its levels in a `HashMap<u64, u32>` from each
technology's slot number (`tech_index`) to its level, and its unlocked
features in a `HashSet<u64>` of feature slot numbers (`feature_index`). The
keys are integers rather than `TechId` and `UnlockableFeature` because vstd's
contracts for std's `HashMap` and `HashSet` describe their contents only for
key types that vstd knows to obey its key model (`obeys_key_model`: the
integer types, `bool` and a few more); for an enum of this crate with a
derived `Hash` and `Eq` nothing would be known. The state's view is the map
from technologies to levels (a slot without an entry reads as level 0) and
the set of unlocked features. vstd gives `HashSet::clone` no contract, so
`Clone` for the state is written by hand and proved to keep the view.
