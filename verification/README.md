# color_management

The rules of the wp-color-management-v1 Wayland protocol, for use in a compositor, verified with
Verus.

- `src/` is the library. It decides what every request does: which are refused and with what error,
  what becomes pending and what committed on a surface, which identity an image description has,
  and who is told of changes. It does not touch the Wayland connection: protocol objects are given
  by keys, and what is to be done comes back as values. `src/laws.rs` states what holds across its
  functions. What is taken on trust are the three functions at the end of `src/wire.rs`, which ask
  wayland-server which numbers stand for a named value.
- `app/` connects the library to wayland-server.
- `tests/` exercises the library on concrete values.
