use rock_paper_scissors::game::{get_random_choice, Choice, Outcome};

const ALL: [Choice; 3] = [Choice::Rock, Choice::Paper, Choice::Scissors];

#[test]
fn same_choice_draws() {
    for a in ALL {
        assert_eq!(a.beats(&a), Outcome::Draw);
    }
}

#[test]
fn rock_beats_scissors() {
    assert_eq!(Choice::Rock.beats(&Choice::Scissors), Outcome::Win);
}

#[test]
fn scissors_beat_paper() {
    assert_eq!(Choice::Scissors.beats(&Choice::Paper), Outcome::Win);
}

#[test]
fn paper_beats_rock() {
    assert_eq!(Choice::Paper.beats(&Choice::Rock), Outcome::Win);
}

#[test]
fn the_cycle_read_backwards_loses() {
    assert_eq!(Choice::Scissors.beats(&Choice::Rock), Outcome::Lose);
    assert_eq!(Choice::Paper.beats(&Choice::Scissors), Outcome::Lose);
    assert_eq!(Choice::Rock.beats(&Choice::Paper), Outcome::Lose);
}

#[test]
fn exactly_three_pairs_win() {
    let mut wins: usize = 0;
    let mut losses: usize = 0;
    let mut draws: usize = 0;
    for a in ALL {
        for b in ALL {
            match a.beats(&b) {
                Outcome::Win => wins += 1,
                Outcome::Lose => losses += 1,
                Outcome::Draw => draws += 1,
            }
        }
    }
    assert_eq!(wins, 3);
    assert_eq!(losses, 3);
    assert_eq!(draws, 3);
}

#[test]
fn swapping_sides_swaps_win_and_loss() {
    for a in ALL {
        for b in ALL {
            let mirrored = match a.beats(&b) {
                Outcome::Win => Outcome::Lose,
                Outcome::Lose => Outcome::Win,
                Outcome::Draw => Outcome::Draw,
            };
            assert_eq!(b.beats(&a), mirrored);
        }
    }
}

#[test]
fn distinct_choices_never_draw() {
    for a in ALL {
        for b in ALL {
            if a != b {
                assert_ne!(a.beats(&b), Outcome::Draw);
                assert_ne!(a.beats(&b), b.beats(&a));
            }
        }
    }
}

#[test]
fn player_rock_against_scissors_wins() {
    let player = Choice::Rock;
    let opponent = Choice::Scissors;
    assert_eq!(player.beats(&opponent), Outcome::Win);
}

#[test]
fn player_paper_against_paper_draws() {
    let player = Choice::Paper;
    let opponent = Choice::Paper;
    assert_eq!(player.beats(&opponent), Outcome::Draw);
}

#[test]
fn player_scissors_against_rock_loses() {
    let player = Choice::Scissors;
    let opponent = Choice::Rock;
    assert_eq!(player.beats(&opponent), Outcome::Lose);
}

#[test]
fn an_index_selects_rock_paper_scissors_in_order() {
    assert_eq!(Choice::from_index(0), Choice::Rock);
    assert_eq!(Choice::from_index(1), Choice::Paper);
    assert_eq!(Choice::from_index(2), Choice::Scissors);
}

#[test]
fn random_choice_is_roughly_uniform() {
    let trials: u32 = 30_000;
    let mut rock: u32 = 0;
    let mut paper: u32 = 0;
    let mut scissors: u32 = 0;
    for _ in 0..trials {
        match get_random_choice() {
            Choice::Rock => rock += 1,
            Choice::Paper => paper += 1,
            Choice::Scissors => scissors += 1,
        }
    }
    assert_eq!(rock + paper + scissors, trials);
    for count in [rock, paper, scissors] {
        let share: f64 = f64::from(count) / f64::from(trials);
        assert!((share - 1.0 / 3.0).abs() < 0.03, "share {share} is far from a third");
    }
}

#[test]
fn random_choice_reaches_every_variant() {
    let mut seen: [bool; 3] = [false; 3];
    for _ in 0..1_000 {
        match get_random_choice() {
            Choice::Rock => seen[0] = true,
            Choice::Paper => seen[1] = true,
            Choice::Scissors => seen[2] = true,
        }
    }
    assert_eq!(seen, [true, true, true]);
}
