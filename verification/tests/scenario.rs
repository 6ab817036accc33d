use cat_hand::sprite::{SpriteSize, SpriteSizes};
use cat_hand::frame::{can_update, update};
use cat_hand::hand::{
    aim_cat_hand, cat_hand_friction, Motion, Tone, CAT_HAND_ACCELERATION, CAT_HAND_CATCH_RANGE,
};
use cat_hand::input::Pointer;
use cat_hand::state::{
    CatHandState, GameState, Target, CAT_HAND_START_X, CAT_HAND_WAIT_Y,
};

struct Hand {
    x: f32,
    y: f32,
    x_prev: f32,
    y_prev: f32,
}

impl Hand {
    fn at_rest() -> Hand {
        let x = CAT_HAND_START_X as f32;
        let y = CAT_HAND_WAIT_Y as f32;
        Hand { x, y, x_prev: x, y_prev: y }
    }

    fn distance_to(&self, target: Target) -> f32 {
        let x_to_target = target.x2 as f32 / 2.0 - self.x;
        let y_to_target = target.y2 as f32 / 2.0 - self.y;
        (x_to_target * x_to_target + y_to_target * y_to_target).sqrt()
    }

    fn step(&mut self, target: Target, friction_percent: u32) -> Motion {
        let acceleration = CAT_HAND_ACCELERATION as f32 / 100.0;
        let friction = friction_percent as f32 / 100.0;
        let x_to_target = target.x2 as f32 / 2.0 - self.x;
        let y_to_target = target.y2 as f32 / 2.0 - self.y;
        let distance = self.distance_to(target);
        let (mut x_acceleration, mut y_acceleration) = if distance == 0.0 || acceleration > distance
        {
            (x_to_target, y_to_target)
        } else {
            (x_to_target * acceleration / distance, y_to_target * acceleration / distance)
        };
        x_acceleration -= (self.x - self.x_prev) * friction;
        y_acceleration -= (self.y - self.y_prev) * friction;
        let x_velocity = self.x - self.x_prev + x_acceleration / 2.0;
        let y_velocity = self.y - self.y_prev + y_acceleration / 2.0;
        self.x_prev = self.x;
        self.y_prev = self.y;
        self.x += x_velocity;
        self.y += y_velocity;
        Motion {
            x: self.x as i32,
            y: self.y as i32,
            within_catch_range: self.distance_to(target) < CAT_HAND_CATCH_RANGE as f32,
        }
    }
}

fn sprite_sizes() -> SpriteSizes {
    let tile = SpriteSize { width: 16, height: 8 };
    SpriteSizes {
        floor: [tile, tile, tile, tile],
        cat_hand_open: SpriteSize { width: 16, height: 16 },
        cat_hand_closed: SpriteSize { width: 16, height: 16 },
        cat_arm: SpriteSize { width: 16, height: 8 },
    }
}

fn run_frame(
    state: &mut GameState,
    hand: &mut Hand,
    pointer: Pointer,
    sizes: &SpriteSizes,
) -> (Option<Tone>, Motion) {
    let click = aim_cat_hand(state, pointer);
    let motion = hand.step(state.cat_hand_target, cat_hand_friction(state.cat_hand_state));
    assert!(can_update(state, pointer, motion, sizes));
    let frame = update(state, pointer, motion, sizes, &[0x1b, 0x06]);
    assert!(click.is_none() || frame.tone.is_none());
    (click.or(frame.tone), motion)
}

#[test]
fn a_click_is_caught_after_a_bounded_lunge() {
    let sizes = sprite_sizes();
    let mut state = GameState::new();
    let mut hand = Hand::at_rest();
    let pointer = Pointer { x: 200, y: 100, buttons: 1 };

    let (tone, _) = run_frame(&mut state, &mut hand, pointer, &sizes);
    assert_eq!(tone, Some(Tone { frequency: 440, duration: 10, volume: 10, channel: 0 }));
    assert_eq!(state.cat_hand_state, CatHandState::Attacking);
    assert_eq!(state.cat_hand_target, Target::at_pixel(200, 100));
    assert_eq!(state.frame, 1);

    let mut frames = 1;
    while state.cat_hand_state == CatHandState::Attacking {
        assert!(frames < 500, "the lunge does not converge");
        assert_eq!(state.cat_hand_target, Target::at_pixel(200, 100));
        let (tone, motion) = run_frame(&mut state, &mut hand, pointer, &sizes);
        frames += 1;
        assert_eq!(tone, None);
        assert_eq!(motion.within_catch_range, state.cat_hand_state == CatHandState::Retreating);
    }
    assert_eq!(frames, 439);
    assert_eq!(state.frame, 439);
    assert_eq!(state.cat_hand_state, CatHandState::Retreating);
    assert_eq!(state.cat_hand_target, Target::at_pixel(0, 160));
    assert!(hand.distance_to(Target::at_pixel(200, 100)) < 10.0);
}

struct Lcg(u64);

impl Lcg {
    fn next(&mut self) -> u32 {
        self.0 = self.0.wrapping_mul(6364136223846793005).wrapping_add(1442695040888963407);
        (self.0 >> 33) as u32
    }
}

fn successor(state: CatHandState) -> CatHandState {
    match state {
        CatHandState::Ready => CatHandState::Attacking,
        CatHandState::Attacking => CatHandState::Retreating,
        CatHandState::Retreating => CatHandState::Ready,
    }
}

#[test]
fn any_run_follows_the_cycle() {
    let sizes = sprite_sizes();
    let mut rng = Lcg(2024);
    let mut state = GameState::new();
    let mut seen = [false; 3];
    for n in 0..20_000u32 {
        let pointer = Pointer {
            x: (rng.next() % 200) as i32 - 20,
            y: (rng.next() % 200) as i32 - 20,
            buttons: (rng.next() % 4) as u8,
        };
        let motion = Motion {
            x: (rng.next() % 200) as i32 - 20,
            y: (rng.next() % 200) as i32 - 20,
            within_catch_range: rng.next() % 3 == 0,
        };
        let before = state;
        aim_cat_hand(&mut state, pointer);
        let aimed = state;
        assert!(can_update(&state, pointer, motion, &sizes));
        update(&mut state, pointer, motion, &sizes, &[]);
        let pressed = pointer.buttons & 1 != 0;

        assert_eq!(state.frame, n + 1);
        assert!(
            aimed.cat_hand_state == before.cat_hand_state
                || (before.cat_hand_state == CatHandState::Ready
                    && aimed.cat_hand_state == CatHandState::Attacking
                    && pressed)
        );
        assert!(
            state.cat_hand_state == aimed.cat_hand_state
                || state.cat_hand_state == successor(aimed.cat_hand_state)
        );
        if state.cat_hand_state == CatHandState::Retreating {
            assert_eq!(state.cat_hand_target, Target::at_pixel(0, 160));
            if before.cat_hand_state != CatHandState::Retreating {
                assert!(motion.within_catch_range);
                assert!(before.cat_hand_state == CatHandState::Attacking || pressed);
            }
        }
        if state.cat_hand_state == CatHandState::Attacking {
            if before.cat_hand_state == CatHandState::Attacking {
                assert_eq!(state.cat_hand_target, before.cat_hand_target);
                assert!(!motion.within_catch_range);
            } else {
                assert_eq!(before.cat_hand_state, CatHandState::Ready);
                assert!(pressed);
                assert_eq!(state.cat_hand_target, Target::at_pixel(pointer.x, pointer.y));
            }
        }
        if state.cat_hand_state == CatHandState::Ready
            && before.cat_hand_state != CatHandState::Ready
        {
            assert_eq!(before.cat_hand_state, CatHandState::Retreating);
            assert!(!pressed && motion.y >= CAT_HAND_WAIT_Y);
        }
        if before.cat_hand_state == CatHandState::Retreating {
            assert_eq!(
                state.cat_hand_state == CatHandState::Ready,
                !pressed && motion.y >= CAT_HAND_WAIT_Y
            );
        }
        if before.cat_hand_state == CatHandState::Attacking {
            assert_eq!(
                state.cat_hand_state == CatHandState::Retreating,
                motion.within_catch_range
            );
        }
        seen[match state.cat_hand_state {
            CatHandState::Ready => 0,
            CatHandState::Attacking => 1,
            CatHandState::Retreating => 2,
        }] = true;
    }
    assert_eq!(seen, [true, true, true]);
}

#[test]
fn a_whole_game_round_with_a_moving_hand() {
    let sizes = sprite_sizes();
    let mut state = GameState::new();
    let mut hand = Hand::at_rest();
    let idle = Pointer { x: 80, y: 80, buttons: 0 };
    for _ in 0..50 {
        let (tone, _) = run_frame(&mut state, &mut hand, idle, &sizes);
        assert_eq!(tone, None);
        assert_eq!(state.cat_hand_state, CatHandState::Ready);
        assert_eq!(state.cat_hand_target, Target { x2: 240, y2: 310 });
    }
    assert_eq!((hand.x, hand.y), (120.0, 155.0));

    let click = Pointer { x: 130, y: 140, buttons: 1 };
    let mut tones = Vec::new();
    let mut phases = vec![state.cat_hand_state];
    for _ in 0..2000 {
        let pointer = if state.cat_hand_state == CatHandState::Retreating { idle } else { click };
        let (tone, _) = run_frame(&mut state, &mut hand, pointer, &sizes);
        tones.extend(tone);
        if *phases.last().unwrap() != state.cat_hand_state {
            phases.push(state.cat_hand_state);
        }
        if phases.len() == 4 {
            break;
        }
    }
    assert_eq!(
        phases,
        vec![
            CatHandState::Ready,
            CatHandState::Attacking,
            CatHandState::Retreating,
            CatHandState::Ready
        ]
    );
    assert_eq!(
        tones,
        vec![
            Tone { frequency: 440, duration: 10, volume: 10, channel: 0 },
            Tone { frequency: 300, duration: 10, volume: 10, channel: 0 }
        ]
    );
    assert!(hand.y >= 155.0);
}
