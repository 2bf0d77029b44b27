# border_shorthands

Verified parsing and serialization of the CSS `border` family of shorthand
properties: `border`, `border-top`/`-right`/`-bottom`/`-left` and their
logical counterparts, `border-width`, `border-color`, `border-style`,
`border-radius`, `border-image`, `border-block`/`border-inline` and their
`-width`/`-style`/`-color` pairs.

The library (`src/`) reads a declaration value from a stream of component
values (`token::Token`) with a cursor (`parser::Parser`), and writes
longhands back as tokens. Every parser's result is stated by a spec
function; the proof functions state the laws: a valid value written out
reads back as itself, and the parts of `border` and `border-image` may come
in any order. Named colors and hash colors are decoded by cssparser; in
quirks mode `border-color` also reads hashless colors. Colors are written as
`currentcolor` or as color functions.

`app/` tokenizes CSS text with cssparser (numbers are kept in thousandths)
and turns tokens back into text.
