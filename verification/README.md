# godot_rich_text

Rich text editing and display controls for Godot (`RichTextEdit`,
`RichTextView`), built on the `text-document` model and the
`text-typeset` layout engine.

The crate is split in two:

- `src/` is a Verus-verified library holding the controls' decisions:
  key and mouse translation (`input`), what each action does in the editor
  and the viewer (`commands`), table navigation and cell selection
  (`tables`), list indentation, Ctrl+A escalation, click runs, the rich
  clipboard and buffered typing (`editing`), the handling of the document's
  change events (`events`), font registration with its embedded fallback
  (`fonts`), painting decisions and the image texture cache (`render`),
  default settings (`settings`), and the session that ties a document, its
  caret and this state together (`session`). The calls into `text-document`
  stand behind the trusted declarations of `document`.
- `app/` is the Godot extension around it: the nodes, signals, drawing,
  the clipboard, the typesetter adapter and the pixel geometry of scrolling
  and caret movement.

`tests/` exercises the library, including sessions on real documents.
