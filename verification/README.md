# openlogi

Button bindings, gestures and device settings for Logitech mice.

`src/` is the library. It is written in Verus: every function states what it
returns or changes, over mathematical models of the data, and is proved to do so.
What holds of several functions together is stated in public proof functions whose
names begin with `law_`. They say, among other things, that

* a saved configuration reads back, and an older one is migrated once, without
  losing what its current shape says;
* putting a button in gesture mode binds all its directions, keeps its click, and
  leaves every other button alone;
* a per-app override affects its own app and button only;
* no action is stored under the name of a direction, so that a stored binding is
  always read as what it was;
* a hold reports one swipe at most, and a quick tap is a click however far the
  cursor moved;
* what a typed chord is shown as can be typed again, and means the same;
* every key that is pressed is released, in the opposite order, and on Linux every
  event that is sent is one that the virtual device registers.

What rests on trust is marked where it stands: appending a character to a `String`
in `src/text.rs`, and the two uses of the monotonic clock in `src/swipe.rs`.

`app/` is what touches the world: the configuration file, and the events of
macOS, Linux and Windows. It is ordinary Rust and holds no rules of its own.

`tests/` runs the library on concrete values.
