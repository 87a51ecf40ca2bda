use vstd::prelude::*;
use crate::food::spawn_food;
use crate::grid::{is_reversal, turn, turned, Arena, Coords, Direction};
use crate::snake::{bites_itself, grow, grown, hits_tail, lemma_grow_keeps_segments, lemma_move_keeps_length, move_head, moved};

verus! {

/// A request decoded from one key press.
#[derive(Clone, Copy, Debug, PartialEq, Eq, Structural)]
pub enum Command {
    Quit,
    Turn(Direction),
    Restart,
}

/// What the caller does once a tick has been taken.
#[derive(Clone, Copy, Debug, PartialEq, Eq, Structural)]
pub enum Outcome {
    /// Leave the loop.
    Exit,
    /// Draw the playing scene.
    Scene,
    /// Draw the end-of-game screen.
    EndScreen,
}

/// The whole state of one game. The snake's head is `snake[0]`.
pub struct Game {
    pub arena: Arena,
    pub snake: Vec<Coords>,
    pub food: Coords,
    pub score: u64,
    pub direction: Direction,
    pub game_over: bool,
}

/// The mathematical state of a game.
pub ghost struct GameView {
    pub arena: Arena,
    pub snake: Seq<Coords>,
    pub food: Coords,
    pub score: nat,
    pub direction: Direction,
    pub game_over: bool,
}

impl View for Game {
    type V = GameView;

    open spec fn view(&self) -> GameView {
        GameView {
            arena: self.arena,
            snake: self.snake@,
            food: self.food,
            score: self.score as nat,
            direction: self.direction,
            game_over: self.game_over,
        }
    }
}

/// The state a new game starts in: one segment at the centre, heading left,
/// no score.
pub open spec fn initial(arena: Arena, food: Coords) -> GameView {
    GameView {
        arena,
        snake: seq![arena.center_spec()],
        food,
        score: 0,
        direction: Direction::Left,
        game_over: false,
    }
}

impl GameView {
    /// The snake and the food lie on the field, the snake has at least one
    /// segment, and it has grown by one for each point scored.
    pub open spec fn wf(self) -> bool {
        &&& self.arena.wf()
        &&& self.snake.len() >= 1
        &&& self.snake.len() == self.score + 1
        &&& forall|i: int| 0 <= i < self.snake.len() ==> self.arena.contains(#[trigger] self.snake[i])
        &&& self.arena.contains(self.food)
    }

    /// The same state heading `d`.
    pub open spec fn with_direction(self, d: Direction) -> GameView {
        GameView { direction: d, ..self }
    }

    /// The body after this tick's movement; a stopped snake stays put.
    pub open spec fn moved_body(self) -> Seq<Coords> {
        if self.direction == Direction::Stop {
            self.snake
        } else {
            moved(self.snake, self.arena.step_spec(self.snake[0], self.direction))
        }
    }

    /// One step of play: move, then end the game if the head lies on the
    /// tail, then eat the food if the head lies on it, growing at the food's
    /// cell and putting the next food at `fresh_food`.
    pub open spec fn advanced(self, fresh_food: Coords) -> GameView {
        let body = self.moved_body();
        let bitten = bites_itself(body);
        let after_collision = GameView {
            snake: body,
            direction: if bitten { Direction::Stop } else { self.direction },
            game_over: self.game_over || bitten,
            ..self
        };
        if body[0] == self.food {
            GameView {
                snake: grown(body, self.food),
                food: fresh_food,
                score: self.score + 1,
                ..after_collision
            }
        } else {
            after_collision
        }
    }

    /// A fresh game on the same field, with the food at `food`.
    pub open spec fn restarted(self, food: Coords) -> GameView {
        initial(self.arena, food)
    }

    /// The state after acting on `cmd`, before any movement.
    pub open spec fn commanded(self, cmd: Option<Command>, restart_food: Coords) -> GameView {
        match cmd {
            Some(Command::Turn(d)) => self.with_direction(turned(self.direction, d)),
            Some(Command::Restart) => if self.game_over {
                self.restarted(restart_food)
            } else {
                self
            },
            _ => self,
        }
    }

    /// One tick: act on the command (if any), then, unless the game is over,
    /// take a step of play. A quit leaves the state as it is.
    pub open spec fn ticked(self, cmd: Option<Command>, restart_food: Coords, eaten_food: Coords) -> (
        GameView,
        Outcome,
    ) {
        if cmd == Some(Command::Quit) {
            (self, Outcome::Exit)
        } else {
            let g = self.commanded(cmd, restart_food);
            if g.game_over {
                (g, Outcome::EndScreen)
            } else {
                (g.advanced(eaten_food), Outcome::Scene)
            }
        }
    }
}

/// The command a key stands for: `q` quits, `w` `a` `s` `d` steer, `m` stops,
/// `n` restarts.
pub open spec fn command_spec(key: char) -> Option<Command> {
    if key == 'q' {
        Some(Command::Quit)
    } else if key == 'w' {
        Some(Command::Turn(Direction::Up))
    } else if key == 'a' {
        Some(Command::Turn(Direction::Left))
    } else if key == 's' {
        Some(Command::Turn(Direction::Down))
    } else if key == 'd' {
        Some(Command::Turn(Direction::Right))
    } else if key == 'm' {
        Some(Command::Turn(Direction::Stop))
    } else if key == 'n' {
        Some(Command::Restart)
    } else {
        None
    }
}

/// Decodes a key press; other keys mean nothing.
pub fn command_for_key(key: char) -> (r: Option<Command>)
    ensures
        r == command_spec(key),
{
    if key == 'q' {
        Some(Command::Quit)
    } else if key == 'w' {
        Some(Command::Turn(Direction::Up))
    } else if key == 'a' {
        Some(Command::Turn(Direction::Left))
    } else if key == 's' {
        Some(Command::Turn(Direction::Down))
    } else if key == 'd' {
        Some(Command::Turn(Direction::Right))
    } else if key == 'm' {
        Some(Command::Turn(Direction::Stop))
    } else if key == 'n' {
        Some(Command::Restart)
    } else {
        None
    }
}

/// A step of play keeps the state well formed.
pub proof fn lemma_advance_wf(g: GameView, fresh_food: Coords)
    requires
        g.wf(),
        g.arena.contains(fresh_food),
    ensures
        g.advanced(fresh_food).wf(),
{
    let body = g.moved_body();
    if g.direction != Direction::Stop {
        let head = g.arena.step_spec(g.snake[0], g.direction);
        lemma_move_keeps_length(g.snake, head);
        assert forall|i: int| 0 <= i < body.len() implies g.arena.contains(#[trigger] body[i]) by {
            if i > 0 {
                assert(body[i] == g.snake[i - 1]);
            }
        }
    }
    lemma_grow_keeps_segments(body, g.food);
    let grown_body = grown(body, g.food);
    assert forall|i: int| 0 <= i < grown_body.len() implies g.arena.contains(#[trigger] grown_body[i]) by {
        if i < body.len() {
            assert(grown_body[i] == body[i]);
        }
    }
}

/// A head that lands on its own tail ends the game and stops the snake.
pub proof fn lemma_self_collision_ends_game(g: GameView, fresh_food: Coords)
    requires
        g.wf(),
        bites_itself(g.moved_body()),
    ensures
        g.advanced(fresh_food).game_over,
        g.advanced(fresh_food).direction == Direction::Stop,
{
}

/// A head that lands on the food scores one point, grows the snake by one
/// segment at the food's cell and puts the next food at `fresh_food`.
pub proof fn lemma_eating(g: GameView, fresh_food: Coords)
    requires
        g.wf(),
        g.moved_body()[0] == g.food,
    ensures
        g.advanced(fresh_food).score == g.score + 1,
        g.advanced(fresh_food).snake.len() == g.snake.len() + 1,
        g.advanced(fresh_food).snake.last() == g.food,
        g.advanced(fresh_food).food == fresh_food,
{
    if g.direction != Direction::Stop {
        lemma_move_keeps_length(g.snake, g.arena.step_spec(g.snake[0], g.direction));
    }
}

/// Restarting a finished game clears the score and the game-over flag, puts a
/// single segment at the centre and heads left.
pub proof fn lemma_restart_resets(g: GameView, restart_food: Coords)
    requires
        g.wf(),
        g.game_over,
    ensures
        g.commanded(Some(Command::Restart), restart_food) == initial(g.arena, restart_food),
        g.commanded(Some(Command::Restart), restart_food).score == 0,
        !g.commanded(Some(Command::Restart), restart_food).game_over,
        g.commanded(Some(Command::Restart), restart_food).snake == seq![g.arena.center_spec()],
        g.commanded(Some(Command::Restart), restart_food).direction == Direction::Left,
{
}

/// A tick with no command does nothing but the step of play that the current
/// direction implies, and nothing at all once the game is over.
pub proof fn lemma_idle_tick(g: GameView, restart_food: Coords, eaten_food: Coords)
    requires
        g.wf(),
    ensures
        !g.game_over ==> g.ticked(None, restart_food, eaten_food) == (g.advanced(eaten_food), Outcome::Scene),
        g.game_over ==> g.ticked(None, restart_food, eaten_food) == (g, Outcome::EndScreen),
{
}

impl Game {
    /// See [`GameView::wf`].
    pub open spec fn wf(&self) -> bool {
        self@.wf()
    }

    /// A new game on `arena` with the food at `food`.
    pub fn start(arena: Arena, food: Coords) -> (g: Game)
        requires
            arena.wf(),
            arena.contains(food),
        ensures
            g@ == initial(arena, food),
            g.wf(),
    {
        let g = Game {
            arena,
            snake: vec![arena.center()],
            food,
            score: 0,
            direction: Direction::Left,
            game_over: false,
        };
        assert(g.snake@ =~= seq![arena.center_spec()]);
        g
    }

    /// A new game on `arena`, with the food at a random cell of the field.
    pub fn new(arena: Arena) -> (g: Game)
        requires
            arena.wf(),
        ensures
            g.wf(),
            exists|food: Coords| arena.contains(food) && g@ == initial(arena, food),
    {
        let food = spawn_food(&arena);
        Game::start(arena, food)
    }

    /// Asks for a new direction: a straight reversal is ignored, anything else
    /// (`Stop` included) is taken.
    pub fn set_direction(&mut self, dir: Direction)
        ensures
            final(self)@ == old(self)@.with_direction(turned(old(self).direction, dir)),
            final(self).direction == (if is_reversal(old(self).direction, dir) {
                old(self).direction
            } else {
                dir
            }),
    {
        self.direction = turn(self.direction, dir);
    }

    /// Ends the game.
    pub fn game_over(&mut self)
        ensures
            final(self)@ == (GameView { game_over: true, ..old(self)@ }),
    {
        self.game_over = true;
    }

    /// Starts over on the same field with the food at `food`.
    pub fn start_new_game_with(&mut self, food: Coords)
        requires
            old(self).wf(),
            old(self).arena.contains(food),
        ensures
            final(self)@ == old(self)@.restarted(food),
            final(self).wf(),
    {
        *self = Game::start(self.arena, food);
    }

    /// Starts over on the same field, with the food at a random cell.
    pub fn start_new_game(&mut self)
        requires
            old(self).wf(),
        ensures
            final(self).wf(),
            exists|food: Coords|
                old(self).arena.contains(food) && final(self)@ == old(self)@.restarted(food),
    {
        let food = spawn_food(&self.arena);
        self.start_new_game_with(food);
    }

    /// One step of play (see [`GameView::advanced`]), with `fresh_food` as
    /// the next food should the snake eat.
    pub fn update_scene_with(&mut self, fresh_food: Coords)
        requires
            old(self).wf(),
            old(self).arena.contains(fresh_food),
        ensures
            final(self)@ == old(self)@.advanced(fresh_food),
            final(self).wf(),
    {
        proof {
            lemma_advance_wf(self@, fresh_food);
        }
        if self.direction != Direction::Stop {
            let head = self.arena.step(self.snake[0], self.direction);
            move_head(&mut self.snake, head);
        }
        assert(self.snake@ == old(self)@.moved_body());
        if hits_tail(&self.snake) {
            self.set_direction(Direction::Stop);
            self.game_over();
        }
        if self.snake[0] == self.food {
            let n = self.snake.len();
            assert(self.score + 1 == n);
            self.score = self.score + 1;
            let old_food = self.food;
            grow(&mut self.snake, old_food);
            self.food = fresh_food;
        }
        assert(self@ == old(self)@.advanced(fresh_food));
    }

    /// One step of play, drawing the next food at random if the snake eats.
    pub fn update_scene(&mut self)
        requires
            old(self).wf(),
        ensures
            final(self).wf(),
            exists|food: Coords|
                old(self).arena.contains(food) && final(self)@ == old(self)@.advanced(food),
    {
        let food = spawn_food(&self.arena);
        self.update_scene_with(food);
    }

    /// One tick of the game loop for the command read this tick, if any:
    /// `restart_food` is the food of a game restarted now, `eaten_food` the
    /// next food should the snake eat.
    pub fn tick_with(&mut self, cmd: Option<Command>, restart_food: Coords, eaten_food: Coords) -> (r: Outcome)
        requires
            old(self).wf(),
            old(self).arena.contains(restart_food),
            old(self).arena.contains(eaten_food),
        ensures
            (final(self)@, r) == old(self)@.ticked(cmd, restart_food, eaten_food),
            final(self).wf(),
    {
        match cmd {
            Some(Command::Quit) => {
                return Outcome::Exit;
            },
            Some(Command::Turn(d)) => {
                self.set_direction(d);
            },
            Some(Command::Restart) => {
                if self.game_over {
                    self.start_new_game_with(restart_food);
                }
            },
            None => {},
        }
        if !self.game_over {
            self.update_scene_with(eaten_food);
            Outcome::Scene
        } else {
            Outcome::EndScreen
        }
    }

    /// One tick of the game loop, drawing any new food at random.
    pub fn tick(&mut self, cmd: Option<Command>) -> (r: Outcome)
        requires
            old(self).wf(),
        ensures
            final(self).wf(),
            exists|restart_food: Coords, eaten_food: Coords|
                old(self).arena.contains(restart_food) && old(self).arena.contains(eaten_food)
                    && (final(self)@, r) == old(self)@.ticked(cmd, restart_food, eaten_food),
    {
        let restart_food = spawn_food(&self.arena);
        let eaten_food = spawn_food(&self.arena);
        self.tick_with(cmd, restart_food, eaten_food)
    }
}

} // verus!
