# flixparty

A client that keeps play/pause in step across machines: a press of the toggle
key on one machine is published on a shared pub-sub channel, and every
client toggles its local player when the toggle comes in.

- `src/` is the verified library: the retry budget (`retry`), the messages and
  their JSON text (`model`), the configuration and its defaults (`config`),
  keys and input events (`input`), the keyboard decisions (`periphery`,
  `clicker`), the decisions of a running client (`session`), which
  foreground window counts as the player (`condition`), and the desktop
  front end's state (`desktop`).
- `app/` is the program around it: configuration file, pub-sub connection,
  keyboard hook and simulation, logging.
