# crud_macros

The logic of four derives for GraphQL CRUD resolvers over a relational model:

* `CRUD` — a filter input, a sort input, a conversion from the model, and query, mutation and
  subscription resolvers;
* `Hook` and `Authorizer` — trait implementations for an item;
* `Relation` — resolvers that load related items.

`src/` is verified with Verus. Each derive reads a plain model of the item (`syntax`), is
checked (`validate`: `Ok` exactly on the inputs the expansion accepts, else the first problem it
meets), and yields a plan of names and fields (`crud`, `hook`, `authorizer`, `relation`).
`app/` reads `syn` items into the model and writes plans out as tokens with `quote`. Attribute
values whose printed tokens a plan computes with (relation names, `to` and `target_dto`) are
lexed in `src/`, which reports a value the lexer refuses; the other values are lexed in `app/`
as they are written out, and a value that does not lex fails the derive there.
