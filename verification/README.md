# dioxus-genai-chat

A chat-surface library whose logic is verified with Verus.

- `src/model.rs`: the transcript data model (messages, payloads, inline controls,
  diffs, reasoning traces) and the surface's controls with their defaults.
- `src/request.rs`: the conversion of a transcript into a `genai` chat request,
  first as a plan of plain values, then through `genai`'s constructors; with the
  laws of the conversion.
- `src/surface.rs`: every decision the chat surface renders (titles, classes,
  markers, line counts, animation delays, the echo of an interaction).
- `src/sample.rs`: the demo transcript. `src/text.rs`: decimal notation.
- `src/json.rs`: the `serde_json` calls on tool arguments (compact and pretty
  text, building an object), each behind a named result.
- `app/`: the Dioxus + Bulma `ChatSurface` component, a demo, and serde-enabled copies of
  the data model.
