# gameup

The backend of Gameup, a web application for browsing video games and
watching their trailers. It consists of five services: an API gateway, an
auth service, a game catalogue service, an image service and a video service.

- `src/` is the verified library: the decisions and the text that the
  services produce.
  - `text`: decimal rendering of integers, Unicode white space, blank-text test.
  - `auth`: registration and login (Argon2 password hashes), the
    administrator account, token claims, the `Authorization: Bearer` header.
  - `catalog`: the parameterised listing query of the game service, and the
    status of catalogue writes.
  - `media`: upload directories and paths, the step-by-step upload of images
    and videos with the format (by extension) and size checks of each part,
    the URLs of stored files, and the status of their deletion.
  - `gateway`: which endpoints need a token (game and media management,
    reserved to the role `admin`), the upstream calls of each endpoint, and
    the step-by-step handling of a gateway request.
- `app/` runs the services (HTTP with axum, PostgreSQL with sqlx, upstream
  calls with reqwest, tokens with jsonwebtoken) and feeds the library what it
  observes. `app/main.rs` takes the name of the service to run as its first
  argument.
- `tests/` exercises the library on concrete values.
