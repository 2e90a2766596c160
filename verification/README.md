# golarion_compendium

A verified library for building a compendium of the creatures, characters and
talents of the Italian Golarion wiki (golarion.altervista.org), with a small
program around it.

`src/` is the library, written and proved with Verus:

- `wiki`: the page addresses listed in the wiki's database tables, the links
  to skip, and how the downloads are shared among workers.
- `pages`: splitting a creature or character page into its sections.
- `parse_util`, `text`: the string operations the readers are made of.
- `gs`, `alignment`, `size`, `resistance`, `immunities`, `hp`, `skills`,
  `skill_fields`, `talents`: reading and packing the fields of a stat block.
- `vec_cache`: the string buffers every text is interned in, with their cache.
- `entries`: the fixed-size entries written to the compendium file.

`app/main.rs` downloads the pages, hands them to the library and writes the
result files.

Building the entry of a creature needs helpers that map one skill to its code
(splitting a skill from its value), which the project does not have, so the
creature entry builders are not part of the library. A talent's entry is made
from the texts of its page (`entries::create_talent_entry`), but no reader of
talent pages is part of the project either, so the program writes no entries.
