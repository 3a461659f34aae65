# yewchat

A browser chat client. `src/` is the verified library: the room state
(`chat`), the frames on the socket (`protocol`), the login form (`login`),
text helpers (`text`) and the laws of the room (`laws`). `app/` is the yew
front end: routing, the socket and event bus, JSON (de)serialisation and the
HTML of both screens. It feeds decoded events to `Chat::update` and carries
out the action it returns.
