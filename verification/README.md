# wrldbldr_player

The presentation logic of the WrldBldr player client: the state of a game
session (connection, approvals, challenges, dialogue, scene, generation
queue), how messages from the Engine change it, and the helpers the views
use (dice formulas, the story timeline, skill lists, workflow setup, forms,
navigation, the director's challenge panel, the settings panel's status and
the world selection lists).

- `src/` is the verified library. Each public function states what it
  returns or changes in its `requires`/`ensures`, over the abstract models of
  the state types; the `law_*` proof functions state properties that span
  several operations.
- `tests/` runs the library on concrete cases.
- `app/` holds what sits at the edges: storage, random numbers, timers, the
  game connection and JSON values.
